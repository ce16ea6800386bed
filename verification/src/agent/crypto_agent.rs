//! The agent: its configuration, the planning request, and the reading of plans.

use vstd::prelude::*;
use vstd::string::StringExecFns;
use crate::agent::chat::{text_request, ChatRequest};
use crate::agent::tools::{tool_descriptions, ToolRegistry};
use crate::agent::types::{is_version_7, AgentPlan, ThoughtStep, Timestamp, ToolCall, Uuid};
use crate::json::{
    json_member_raw, json_member_text, json_parse_error, member_raw, member_text, parse_error,
};
use crate::text::{chars_of, has_prefix, starts_with_at, string_of, trim_bounds, trimmed};

verus! {

/// The system prompt of the agent where none is configured.
pub const DEFAULT_SYSTEM_PROMPT: &'static str =
    "You are a synthetic cryptocurrency research assistant. You can answer questions about cryptocurrencies and use various synthetic tools to gather information.\n\nWhen answering questions:\n1. Think step-by-step about what information you need\n2. Use available synthetic tools to gather information\n3. Provide clear, concise answers based on the tool results, even though the tool responses are synthetic\n4. Always cite the data sources (tools) you used\n\nAfter gathering information, provide a comprehensive answer to the user's question.";

/// The system message of a planning request.
pub const PLANNING_SYSTEM_PROMPT: &'static str =
    "You are a planning assistant that helps determine which synthetic tools to use.";

/// The temperature of a planning request, 0.3, as float bits.
pub const PLANNING_TEMPERATURE_BITS: u32 = 0x3e99_999a;

/// The temperature of an answer request where none is configured, 0.7, as
/// float bits.
pub const DEFAULT_TEMPERATURE_BITS: u32 = 0x3f33_3333;

/// Upper bound on the tokens of a planning answer.
pub const PLANNING_MAX_TOKENS: u32 = 1000;

/// What stands before the tool descriptions in a planning request.
pub const PLANNING_INTRO: &'static str =
    "You are an in-house synthetic assistant planning how to answer a question about cryptocurrencies with synthetic tools.\n\n";

/// What stands behind the user question in a planning request.
pub const PLANNING_FORMAT: &'static str =
    "\n\nPlease analyze this question and plan which synthetic tools you need to use. For each tool you want to use, provide:\n1. Your reasoning for why you need this tool\n2. The exact tool call in JSON format\n\nRespond in this format:\nTHOUGHT: [your reasoning]\nTOOL_CALL: {\"tool\": \"tool_name_1\", \"arguments\": {\"param\": \"value_1\"}}\nTHOUGHT: [your reasoning]\nTOOL_CALL: {\"tool\": \"tool_name_2\", \"arguments\": {\"param\": \"value_2\"}}\n\nIf no tools are needed, output only a THOUGHT explaining your reasoning.\nTHOUGHT: [your reasoning]\n\nYou can specify multiple THOUGHT/TOOL_CALL pairs if you need multiple tools.\n";

/// Configuration for the crypto agent
#[derive(Debug)]
pub struct CryptoAgentConfig {
    /// System prompt for the agent
    pub system_prompt: String,
    /// Maximum number of tool calls per query
    pub max_tool_calls: usize,
    /// Temperature for LLM, as the bits of a 32-bit float
    pub temperature_bits: u32,
    /// Maximum tokens for LLM response
    pub max_tokens: u32,
}

impl Default for CryptoAgentConfig {
    fn default() -> (config: Self)
        ensures
            config.system_prompt@ == DEFAULT_SYSTEM_PROMPT@,
            config.temperature_bits == DEFAULT_TEMPERATURE_BITS,
            config.max_tokens == 2000,
            config.max_tool_calls == 10,
    {
        Self {
            system_prompt: DEFAULT_SYSTEM_PROMPT.to_owned(),
            temperature_bits: DEFAULT_TEMPERATURE_BITS,
            max_tokens: 2000,
            max_tool_calls: 10,
        }
    }
}

/// The user message of a planning request: the tool description block and
/// the user question, framed by the instructions.
pub open spec fn planning_prompt(descriptions: Seq<char>, user_query: Seq<char>) -> Seq<char> {
    PLANNING_INTRO@ + descriptions + "\n\nUser question: "@ + user_query + PLANNING_FORMAT@
}

/// What one line of a planning answer says.
pub enum PlanLine {
    Thought(Seq<char>),
    Call { tool_name: Seq<char>, arguments: Seq<char> },
    Nothing,
}

/// Reads a line that is free of surrounding white space. A line that
/// opens with `THOUGHT:` is a thought where text follows; a line that opens
/// with `TOOL_CALL:` is a call where a JSON object follows that names a
/// `tool` by a string and has `arguments`; any other line says nothing.
pub open spec fn read_line(line: Seq<char>) -> PlanLine {
    if has_prefix(line, "THOUGHT:"@) {
        let thought = trimmed(line.skip("THOUGHT:"@.len() as int));
        if thought.len() > 0 {
            PlanLine::Thought(thought)
        } else {
            PlanLine::Nothing
        }
    } else if has_prefix(line, "TOOL_CALL:"@) {
        let spec = trimmed(line.skip("TOOL_CALL:"@.len() as int));
        if json_parse_error(spec) is None && json_member_text(spec, "tool"@) is Some
            && json_member_raw(spec, "arguments"@) is Some {
            PlanLine::Call {
                tool_name: json_member_text(spec, "tool"@)->0,
                arguments: json_member_raw(spec, "arguments"@)->0,
            }
        } else {
            PlanLine::Nothing
        }
    } else {
        PlanLine::Nothing
    }
}

/// The position of the first line feed at or after `from`, or the length of
/// the text where there is none.
pub open spec fn line_end(text: Seq<char>, from: int) -> int
    decreases text.len() - from,
{
    if from < 0 || from >= text.len() {
        text.len() as int
    } else if text[from] == '\n' {
        from
    } else {
        line_end(text, from + 1)
    }
}

/// What the lines of `text` from position `from` on say, line by line: the
/// lines are what stands between line feeds, each read without its
/// surrounding white space.
pub open spec fn read_lines(text: Seq<char>, from: int) -> Seq<PlanLine>
    decreases text.len() - from,
{
    if from < 0 || from > text.len() {
        Seq::empty()
    } else {
        let end = line_end(text, from);
        let here = seq![read_line(trimmed(text.subrange(from, end)))];
        if from <= end < text.len() {
            here + read_lines(text, end + 1)
        } else {
            here
        }
    }
}

/// The thoughts among the first `n` lines, in order.
pub open spec fn thoughts_of(lines: Seq<PlanLine>, n: int) -> Seq<Seq<char>>
    decreases n,
{
    if n <= 0 {
        Seq::empty()
    } else {
        match lines[n - 1] {
            PlanLine::Thought(t) => thoughts_of(lines, n - 1).push(t),
            _ => thoughts_of(lines, n - 1),
        }
    }
}

/// The calls among the first `n` lines, in order, as name and arguments.
pub open spec fn calls_of(lines: Seq<PlanLine>, n: int) -> Seq<(Seq<char>, Seq<char>)>
    decreases n,
{
    if n <= 0 {
        Seq::empty()
    } else {
        match lines[n - 1] {
            PlanLine::Call { tool_name, arguments } => calls_of(lines, n - 1).push(
                (tool_name, arguments),
            ),
            _ => calls_of(lines, n - 1),
        }
    }
}

/// The thoughts are those of the planning answer, numbered from 1.
pub open spec fn thoughts_match(thoughts: Seq<ThoughtStep>, expected: Seq<Seq<char>>) -> bool {
    &&& thoughts.len() == expected.len()
    &&& forall|i: int|
        0 <= i < thoughts.len() ==> (#[trigger] thoughts[i]).step == i + 1 && thoughts[i].content@
            == expected[i]
}

/// The calls are those of the planning answer, each with an identifier of
/// version 7 and none with a quote.
pub open spec fn calls_match(calls: Seq<ToolCall>, expected: Seq<(Seq<char>, Seq<char>)>) -> bool {
    &&& calls.len() == expected.len()
    &&& forall|i: int|
        0 <= i < calls.len() ==> (#[trigger] calls[i]).tool_name@ == expected[i].0
            && calls[i].arguments@ == expected[i].1 && calls[i].compliance_quote is None
            && is_version_7(calls[i].id@)
}

/// The position of the first line feed at or after `from`.
fn find_line_end(chars: &Vec<char>, from: usize) -> (end: usize)
    requires
        from <= chars.len(),
    ensures
        end == line_end(chars@, from as int),
        from <= end <= chars.len(),
{
    let mut end = from;
    while end < chars.len() && chars[end] != '\n'
        invariant
            from <= end <= chars.len(),
            line_end(chars@, from as int) == line_end(chars@, end as int),
        decreases chars.len() - end,
    {
        end += 1;
    }
    end
}

/// The thoughts among the first `n` lines depend on those lines alone.
pub proof fn lemma_thoughts_of_prefix(a: Seq<PlanLine>, b: Seq<PlanLine>, n: int)
    requires
        n <= a.len(),
        n <= b.len(),
        forall|i: int| 0 <= i < n ==> a[i] == b[i],
    ensures
        thoughts_of(a, n) == thoughts_of(b, n),
    decreases n,
{
    if n > 0 {
        lemma_thoughts_of_prefix(a, b, n - 1);
    }
}

/// The calls among the first `n` lines depend on those lines alone.
pub proof fn lemma_calls_of_prefix(a: Seq<PlanLine>, b: Seq<PlanLine>, n: int)
    requires
        n <= a.len(),
        n <= b.len(),
        forall|i: int| 0 <= i < n ==> a[i] == b[i],
    ensures
        calls_of(a, n) == calls_of(b, n),
    decreases n,
{
    if n > 0 {
        lemma_calls_of_prefix(a, b, n - 1);
    }
}

/// Reads the line `chars[from..upto]`: a thought step numbered `step`, a
/// tool call, or nothing.
fn read_plan_line(source: &str, chars: &Vec<char>, from: usize, upto: usize, step: usize) -> (r: (
    Option<ThoughtStep>,
    Option<ToolCall>,
))
    requires
        source@ == chars@,
        from <= upto <= chars.len(),
    ensures
        match read_line(trimmed(chars@.subrange(from as int, upto as int))) {
            PlanLine::Thought(t) => r.0 is Some && r.1 is None && r.0->0.step == step
                && r.0->0.content@ == t && from < upto,
            PlanLine::Call { tool_name, arguments } => r.0 is None && r.1 is Some
                && r.1->0.tool_name@ == tool_name && r.1->0.arguments@ == arguments
                && r.1->0.compliance_quote is None && is_version_7(r.1->0.id@),
            PlanLine::Nothing => r.0 is None && r.1 is None,
        },
{
    let (a, b) = trim_bounds(chars, from, upto);
    let ghost line = chars@.subrange(a as int, b as int);
    let thought_prefix = chars_of("THOUGHT:");
    let call_prefix = chars_of("TOOL_CALL:");
    proof {
        reveal_strlit("THOUGHT:");
        reveal_strlit("TOOL_CALL:");
    }
    if starts_with_at(chars, a, b, &thought_prefix) {
        assert(chars@.subrange(a + 8, b as int) =~= line.skip(8));
        let (c, d) = trim_bounds(chars, a + 8, b);
        if c < d {
            let thought = ThoughtStep {
                step,
                content: string_of(source, chars, c, d),
                timestamp: Timestamp::now(),
            };
            return (Some(thought), None);
        }
        (None, None)
    } else if starts_with_at(chars, a, b, &call_prefix) {
        assert(chars@.subrange(a + 10, b as int) =~= line.skip(10));
        let (c, d) = trim_bounds(chars, a + 10, b);
        let tool_json = string_of(source, chars, c, d);
        if parse_error(tool_json.as_str()).is_none() {
            if let Some(tool_name) = member_text(tool_json.as_str(), "tool") {
                if let Some(arguments) = member_raw(tool_json.as_str(), "arguments") {
                    let call = ToolCall {
                        id: Uuid::now_v7(),
                        tool_name,
                        arguments,
                        timestamp: Timestamp::now(),
                        // Quote will be added after compliance check
                        compliance_quote: None,
                    };
                    return (None, Some(call));
                }
            }
        }
        (None, None)
    } else {
        (None, None)
    }
}

/// Parse the planning answer of the language model into thought steps and
/// tool calls. A `THOUGHT:` line adds a thought step, numbered from 1; a
/// `TOOL_CALL:` line adds a tool call where its JSON names a tool and has
/// arguments, and is passed over where it does not.
pub fn parse_planning_response(planning_text: &str, _user_query: &str) -> (r: (
    Vec<ThoughtStep>,
    Vec<ToolCall>,
))
    ensures
        thoughts_match(
            r.0@,
            thoughts_of(
                read_lines(planning_text@, 0),
                read_lines(planning_text@, 0).len() as int,
            ),
        ),
        calls_match(
            r.1@,
            calls_of(read_lines(planning_text@, 0), read_lines(planning_text@, 0).len() as int),
        ),
{
    let chars = chars_of(planning_text);
    let ghost text = chars@;
    let mut thought_process: Vec<ThoughtStep> = Vec::new();
    let mut tool_calls: Vec<ToolCall> = Vec::new();
    let ghost mut done: Seq<PlanLine> = Seq::empty();
    let mut pos: usize = 0;
    let mut finished = false;
    assert(done + read_lines(text, 0) =~= read_lines(text, 0));
    while !finished
        invariant
            text == chars@,
            planning_text@ == chars@,
            pos <= chars.len(),
            done.len() <= pos || finished,
            thought_process.len() <= done.len(),
            finished ==> read_lines(text, 0) == done,
            !finished ==> read_lines(text, 0) == done + read_lines(text, pos as int),
            thoughts_match(thought_process@, thoughts_of(done, done.len() as int)),
            calls_match(tool_calls@, calls_of(done, done.len() as int)),
        decreases chars.len() - pos + (if finished { 0int } else { 1int }),
    {
        let end = find_line_end(&chars, pos);
        let ghost item = read_line(trimmed(text.subrange(pos as int, end as int)));
        let ghost before = done;
        let ghost thoughts_before = thought_process@;
        let ghost calls_before = tool_calls@;
        let step: usize = if thought_process.len() < usize::MAX {
            thought_process.len() + 1
        } else {
            thought_process.len()
        };
        let (thought, call) = read_plan_line(planning_text, &chars, pos, end, step);
        proof {
            done = before.push(item);
            lemma_thoughts_of_prefix(done, before, before.len() as int);
            lemma_calls_of_prefix(done, before, before.len() as int);
        }
        if let Some(thought) = thought {
            assert(thoughts_before.len() <= pos < end <= chars.len());
            thought_process.push(thought);
        }
        if let Some(call) = call {
            tool_calls.push(call);
        }
        if end < chars.len() {
            assert(read_lines(text, pos as int) == seq![item] + read_lines(text, end + 1));
            assert(before + (seq![item] + read_lines(text, end + 1)) =~= done + read_lines(
                text,
                end + 1,
            ));
            pos = end + 1;
        } else {
            assert(read_lines(text, pos as int) == seq![item]);
            assert(before + seq![item] =~= done);
            finished = true;
        }
    }
    (thought_process, tool_calls)
}

/// Crypto agent that answers crypto-related questions
pub struct CryptoAgent {
    config: CryptoAgentConfig,
    tool_registry: ToolRegistry,
}

impl CryptoAgent {
    /// The system prompt of the agent.
    pub closed spec fn spec_system_prompt(&self) -> Seq<char> {
        self.config.system_prompt@
    }

    /// The tool registry of the agent.
    pub closed spec fn spec_registry(&self) -> ToolRegistry {
        self.tool_registry
    }

    /// Create a new crypto agent with default configuration over a tool
    /// registry.
    pub fn new(tool_registry: ToolRegistry) -> (agent: Self)
        ensures
            agent.spec_system_prompt() == DEFAULT_SYSTEM_PROMPT@,
            agent.spec_temperature_bits() == DEFAULT_TEMPERATURE_BITS,
            agent.spec_max_tokens() == 2000,
            agent.spec_registry() == tool_registry,
    {
        Self::with_config(CryptoAgentConfig::default(), tool_registry)
    }

    /// Create a new crypto agent with custom configuration
    pub fn with_config(config: CryptoAgentConfig, tool_registry: ToolRegistry) -> (agent: Self)
        ensures
            agent.spec_system_prompt() == config.system_prompt@,
            agent.spec_temperature_bits() == config.temperature_bits,
            agent.spec_max_tokens() == config.max_tokens,
            agent.spec_registry() == tool_registry,
    {
        Self { config, tool_registry }
    }

    /// Get the agent's system prompt (for compliance checking)
    pub fn system_prompt(&self) -> (prompt: &str)
        ensures
            prompt@ == self.spec_system_prompt(),
    {
        self.config.system_prompt.as_str()
    }

    /// The temperature of answer requests, as float bits.
    pub closed spec fn spec_temperature_bits(&self) -> u32 {
        self.config.temperature_bits
    }

    /// The token bound of answer requests.
    pub closed spec fn spec_max_tokens(&self) -> u32 {
        self.config.max_tokens
    }

    /// The configuration of the agent.
    pub fn config(&self) -> (config: &CryptoAgentConfig)
        ensures
            config.system_prompt@ == self.spec_system_prompt(),
            config.temperature_bits == self.spec_temperature_bits(),
            config.max_tokens == self.spec_max_tokens(),
    {
        &self.config
    }

    /// The tool registry of the agent.
    pub fn tool_registry(&self) -> (registry: &ToolRegistry)
        ensures
            *registry == self.spec_registry(),
    {
        &self.tool_registry
    }

    /// The planning request for a query: the planning system message, a
    /// user message of the tool descriptions and the query with the
    /// instructions on the form of the answer, temperature 0.3, and at most
    /// 1000 tokens.
    pub fn planning_request(&self, user_query: &str) -> (request: ChatRequest)
        ensures
            request.deep_view() == text_request(
                PLANNING_SYSTEM_PROMPT@,
                planning_prompt(tool_descriptions(self.spec_registry().spec_tools()), user_query@),
                PLANNING_TEMPERATURE_BITS,
                PLANNING_MAX_TOKENS,
            ),
    {
        let tool_descriptions = self.tool_registry.generate_tool_descriptions();
        let mut prompt = PLANNING_INTRO.to_owned();
        prompt.append(tool_descriptions.as_str());
        prompt.append("\n\nUser question: ");
        prompt.append(user_query);
        prompt.append(PLANNING_FORMAT);
        ChatRequest::text(
            PLANNING_SYSTEM_PROMPT,
            prompt,
            PLANNING_TEMPERATURE_BITS,
            PLANNING_MAX_TOKENS,
        )
    }

    /// The plan that the planning answer of the language model stands for.
    pub fn plan_execution(&self, user_query: &str, planning_text: &str) -> (plan: AgentPlan)
        ensures
            plan.system_prompt@ == self.spec_system_prompt(),
            plan.user_query@ == user_query@,
            thoughts_match(
                plan.thought_process@,
                thoughts_of(
                    read_lines(planning_text@, 0),
                    read_lines(planning_text@, 0).len() as int,
                ),
            ),
            calls_match(
                plan.intended_tool_calls@,
                calls_of(
                    read_lines(planning_text@, 0),
                    read_lines(planning_text@, 0).len() as int,
                ),
            ),
    {
        let (thought_process, intended_tool_calls) = parse_planning_response(
            planning_text,
            user_query,
        );
        AgentPlan {
            system_prompt: self.config.system_prompt.clone(),
            user_query: user_query.to_owned(),
            thought_process,
            intended_tool_calls,
        }
    }
}

} // verus!
