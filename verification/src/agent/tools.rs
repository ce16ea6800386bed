//! The tools, their quote check, and the tool registry.

use vstd::prelude::*;
use vstd::string::StringExecFns;
use crate::agent::policy_registry::{
    default_policies, default_tool_policies, info_pairs, policy_infos, PolicyInfo, PolicyRegistry,
};
use crate::agent::quote_utils::{quote_verifies, verify_compliance_quote_dummy};
use crate::agent::types::{ComplianceQuote, ComplianceQuoteView, ToolCall, ToolResult};
use crate::json::{
    array_items, index_raw, json_array_items, json_index, json_member_raw, json_member_text,
    json_object_len, json_parse_error, json_quoted, member_raw, member_text, object_len,
    parse_error, quote,
};
use crate::text::{
    decimal, decimal_string, lowercase, lowercase_of, str_eq, uppercase, uppercase_of,
};

verus! {

/// Calls `chrono::Utc::now` and formats it with `to_rfc3339`. Trusted; the
/// text depends on the clock, so nothing is stated of it.
#[verifier::external_body]
fn now_rfc3339() -> (text: String) {
    chrono::Utc::now().to_rfc3339()
}

/// The view of an optional compliance quote.
pub open spec fn quote_view(quote: Option<&ComplianceQuote>) -> Option<ComplianceQuoteView> {
    match quote {
        Some(q) => Some(q.deep_view()),
        None => None,
    }
}

/// Why a tool refuses the quote that is attached to a call, if it does: the
/// quote does not pass the structural check for this tool, or it records a
/// refusal. A call without a quote is not refused on this account.
pub open spec fn quote_refusal(tool_name: Seq<char>, quote: Option<ComplianceQuoteView>) -> Option<
    Seq<char>,
> {
    match quote {
        None => None,
        Some(q) => if !quote_verifies(q, tool_name) {
            Some("Compliance quote verification failed"@)
        } else if !q.compliant {
            Some("Tool use was rejected by compliance policy"@)
        } else {
            None
        },
    }
}

/// Checks the compliance quote that is attached to a call of `tool_name`.
pub fn check_attached_quote(tool_name: &str, compliance_quote: Option<&ComplianceQuote>) -> (r:
    Result<(), String>)
    ensures
        match r {
            Ok(_) => quote_refusal(tool_name@, quote_view(compliance_quote)) is None,
            Err(e) => quote_refusal(tool_name@, quote_view(compliance_quote)) == Some(e@),
        },
{
    if let Some(quote) = compliance_quote {
        let verified = match verify_compliance_quote_dummy(quote, tool_name) {
            Ok(v) => v,
            Err(_) => false,
        };
        if !verified {
            return Err("Compliance quote verification failed".to_owned());
        }
        if !quote.compliant {
            return Err("Tool use was rejected by compliance policy".to_owned());
        }
    }
    Ok(())
}

/// The error of arguments that are no JSON document.
pub open spec fn invalid_arguments(arguments: Seq<char>) -> Seq<char> {
    "Invalid arguments: "@ + json_parse_error(arguments)->0
}

/// Fails where `arguments` are no JSON document.
fn check_arguments(arguments: &str) -> (r: Result<(), String>)
    ensures
        match r {
            Ok(_) => json_parse_error(arguments@) is None,
            Err(e) => json_parse_error(arguments@) is Some && e@ == invalid_arguments(arguments@),
        },
{
    match parse_error(arguments) {
        Some(complaint) => {
            let mut e = "Invalid arguments: ".to_owned();
            e.append(complaint.as_str());
            Err(e)
        },
        None => Ok(()),
    }
}

/// A tool that can be used by the agent
pub trait Tool {
    /// Name of the tool
    spec fn spec_name(&self) -> Seq<char>;

    /// The policy IDs that the tool declares
    spec fn spec_policy_ids(&self) -> Seq<Seq<char>>;

    /// Description of what the tool does
    spec fn spec_description(&self) -> Seq<char>;

    /// JSON schema for the tool's parameters, as JSON text
    spec fn spec_parameters_schema(&self) -> Seq<char>;

    /// Name of the tool
    fn name(&self) -> (name: &str)
        ensures
            name@ == self.spec_name(),
    ;

    /// Description of what the tool does
    fn description(&self) -> (text: &str)
        ensures
            text@ == self.spec_description(),
    ;

    /// JSON schema for the tool's parameters, as JSON text
    fn parameters_schema(&self) -> (schema: String)
        ensures
            schema@ == self.spec_parameters_schema(),
    ;

    /// Execute the tool with given arguments and compliance quote. A quote
    /// that is attached is checked first, and the call is refused where the
    /// quote does not pass or records a refusal.
    fn execute(&self, arguments: &str, compliance_quote: Option<&ComplianceQuote>) -> (r: Result<
        String,
        String,
    >)
        ensures
            quote_refusal(self.spec_name(), quote_view(compliance_quote)) is Some ==> r == Err::<
                String,
                String,
            >(r->Err_0) && r->Err_0@ == quote_refusal(
                self.spec_name(),
                quote_view(compliance_quote),
            )->0,
    ;

    /// Get the policy IDs for this tool (many-to-many mapping)
    fn policy_ids(&self) -> (ids: Vec<String>)
        ensures
            ids.deep_view() == self.spec_policy_ids(),
    ;

    /// Get the policy information (ID and name) for this tool
    fn policy_info(&self) -> (infos: Vec<PolicyInfo>)
        ensures
            info_pairs(infos@) == policy_infos(
                default_policies(),
                self.spec_policy_ids(),
                self.spec_policy_ids().len() as int,
            ),
    ;
}

/// What PriceFeedTool says of itself.
pub const PRICE_FEED_DESCRIPTION: &'static str =
    "Get current cryptocurrency prices in USD. Returns real-time price data with timestamp.";

/// The parameter schema of PriceFeedTool.
pub const PRICE_FEED_SCHEMA: &'static str =
    "{\"properties\":{\"symbol\":{\"description\":\"The cryptocurrency symbol (e.g., BTC, ETH, SOL)\",\"type\":\"string\"}},\"required\":[\"symbol\"],\"type\":\"object\"}";

/// What OnChainHistoryTool says of itself.
pub const ONCHAIN_HISTORY_DESCRIPTION: &'static str =
    "Get on-chain transaction history for a wallet address. Returns individual transaction records.";

/// The parameter schema of OnChainHistoryTool.
pub const ONCHAIN_HISTORY_SCHEMA: &'static str =
    "{\"properties\":{\"address\":{\"description\":\"The wallet address to query (optional - if not provided, returns all addresses)\",\"type\":\"string\"},\"blockchain\":{\"description\":\"The blockchain network (e.g., ethereum, solana, bitcoin)\",\"type\":\"string\"}},\"required\":[\"blockchain\"],\"type\":\"object\"}";

/// What SentimentTool says of itself.
pub const SENTIMENT_DESCRIPTION: &'static str =
    "Analyze market sentiment for cryptocurrencies from social media and news sources. Returns aggregated sentiment scores.";

/// The parameter schema of SentimentTool.
pub const SENTIMENT_SCHEMA: &'static str =
    "{\"properties\":{\"symbol\":{\"description\":\"The cryptocurrency symbol (e.g., BTC, ETH, SOL)\",\"type\":\"string\"},\"timeframe\":{\"default\":\"24h\",\"description\":\"Time period for analysis (e.g., '24h', '7d', '30d')\",\"type\":\"string\"}},\"required\":[\"symbol\"],\"type\":\"object\"}";

/// What PortfolioTool says of itself.
pub const PORTFOLIO_DESCRIPTION: &'static str =
    "Analyze cryptocurrency portfolio performance and composition. Returns individual holdings with details.";

/// The parameter schema of PortfolioTool.
pub const PORTFOLIO_SCHEMA: &'static str =
    "{\"properties\":{\"address\":{\"description\":\"The wallet address to analyze (optional - if not provided, returns all addresses)\",\"type\":\"string\"},\"blockchain\":{\"description\":\"The blockchain network (e.g., ethereum, solana)\",\"type\":\"string\"}},\"required\":[\"blockchain\"],\"type\":\"object\"}";

/// The policy information of a tool of the default registry.
fn default_policy_info(tool_name: &str, Ghost(ids): Ghost<Seq<Seq<char>>>) -> (infos: Vec<
    PolicyInfo,
>)
    requires
        default_tool_policies().contains_key(tool_name@),
        default_tool_policies()[tool_name@] == ids,
    ensures
        info_pairs(infos@) == policy_infos(default_policies(), ids, ids.len() as int),
{
    PolicyRegistry::default_crypto_policy().get_policy_info_for_tool(tool_name)
}

/// The names of the four reference tools differ from one another.
proof fn lemma_tool_names_differ()
    ensures
        "PriceFeedTool"@ != "OnChainHistoryTool"@,
        "PriceFeedTool"@ != "SentimentTool"@,
        "PriceFeedTool"@ != "PortfolioTool"@,
        "OnChainHistoryTool"@ != "SentimentTool"@,
        "OnChainHistoryTool"@ != "PortfolioTool"@,
        "SentimentTool"@ != "PortfolioTool"@,
{
    reveal_strlit("PriceFeedTool");
    reveal_strlit("OnChainHistoryTool");
    reveal_strlit("SentimentTool");
    reveal_strlit("PortfolioTool");
    assert("PriceFeedTool"@.len() == 13);
    assert("OnChainHistoryTool"@.len() == 18);
    assert("SentimentTool"@.len() == 13);
    assert("PortfolioTool"@.len() == 13);
    assert("PriceFeedTool"@[1] == 'r');
    assert("SentimentTool"@[1] == 'e');
    assert("PortfolioTool"@[1] == 'o');
}

// =============================================================================
// T1: PriceFeedTool - Policy: L1
// =============================================================================

/// T1: Price feed tool for cryptocurrency prices. Its data is a JSON
/// document with a member `prices`, an array of records that each carry a
/// `symbol`.
pub struct PriceFeedTool {
    data: String,
}

/// The first position at or after `from` of a record whose `symbol` is
/// `symbol`.
pub open spec fn find_symbol(records: Seq<Seq<char>>, symbol: Seq<char>, from: int) -> Option<int>
    decreases records.len() - from,
{
    if from < 0 || from >= records.len() {
        None
    } else if json_member_text(records[from], "symbol"@) == Some(symbol) {
        Some(from)
    } else {
        find_symbol(records, symbol, from + 1)
    }
}

/// The result envelope of the price feed for one record.
pub open spec fn price_feed_reply(record: Seq<char>, symbol: Seq<char>) -> Seq<char> {
    "{\"24h_change_pct\":"@ + json_index(record, "24h_change_pct"@) + ",\"24h_volume\":"@
        + json_index(record, "24h_volume"@) + ",\"last_updated\":"@ + json_index(
        record,
        "last_updated"@,
    ) + ",\"market_cap\":"@ + json_index(record, "market_cap"@) + ",\"price_usd\":"@ + json_index(
        record,
        "price_usd"@,
    ) + ",\"source\":\"Market Data Feed\",\"symbol\":"@ + json_quoted(symbol)
        + ",\"tool\":\"PriceFeedTool\"}"@
}

/// What the price feed answers to arguments that are not refused for their
/// quote: the symbol is read from the arguments and put in uppercase, and
/// the record of that symbol is reported.
pub open spec fn price_feed_answer(data: Seq<char>, arguments: Seq<char>) -> Result<
    Seq<char>,
    Seq<char>,
> {
    if json_parse_error(arguments) is Some {
        Err(invalid_arguments(arguments))
    } else if json_member_text(arguments, "symbol"@) is None {
        Err("Missing symbol parameter"@)
    } else {
        let symbol = uppercase_of(json_member_text(arguments, "symbol"@)->0);
        match json_array_items(json_index(data, "prices"@)) {
            None => Err("Invalid price data format"@),
            Some(records) => match find_symbol(records, symbol, 0) {
                None => Err("Unknown cryptocurrency: "@ + symbol),
                Some(i) => Ok(price_feed_reply(records[i], symbol)),
            },
        }
    }
}

/// The outcome of a tool call, as views.
pub open spec fn outcome_view(r: Result<String, String>) -> Result<Seq<char>, Seq<char>> {
    match r {
        Ok(text) => Ok(text@),
        Err(e) => Err(e@),
    }
}

impl PriceFeedTool {
    /// The data of the tool.
    pub closed spec fn spec_data(&self) -> Seq<char> {
        self.data@
    }

    /// A price feed over `data`, a JSON document.
    pub fn new(data: String) -> (tool: Self)
        ensures
            tool.spec_data() == data@,
    {
        Self { data }
    }

    /// The native work of the tool.
    #[verifier::loop_isolation(false)]
    fn lookup(&self, arguments: &str) -> (r: Result<String, String>)
        ensures
            outcome_view(r) == price_feed_answer(self.spec_data(), arguments@),
    {
        check_arguments(arguments)?;
        let symbol = match member_text(arguments, "symbol") {
            Some(s) => uppercase(s.as_str()),
            None => {
                return Err("Missing symbol parameter".to_owned());
            },
        };
        let prices = index_raw(self.data.as_str(), "prices");
        let records = match array_items(prices.as_str()) {
            Some(records) => records,
            None => {
                return Err("Invalid price data format".to_owned());
            },
        };
        let ghost views = records.deep_view();
        let mut i: usize = 0;
        while i < records.len()
            invariant
                i <= records.len(),
                views == records.deep_view(),
                find_symbol(views, symbol@, 0) == find_symbol(views, symbol@, i as int),
            decreases records.len() - i,
        {
            let record = records[i].as_str();
            assert(views[i as int] == record@);
            let found = match member_text(record, "symbol") {
                Some(s) => str_eq(s.as_str(), symbol.as_str()),
                None => false,
            };
            if found {
                let mut out = "{\"24h_change_pct\":".to_owned();
                out.append(index_raw(record, "24h_change_pct").as_str());
                out.append(",\"24h_volume\":");
                out.append(index_raw(record, "24h_volume").as_str());
                out.append(",\"last_updated\":");
                out.append(index_raw(record, "last_updated").as_str());
                out.append(",\"market_cap\":");
                out.append(index_raw(record, "market_cap").as_str());
                out.append(",\"price_usd\":");
                out.append(index_raw(record, "price_usd").as_str());
                out.append(",\"source\":\"Market Data Feed\",\"symbol\":");
                out.append(quote(symbol.as_str()).as_str());
                out.append(",\"tool\":\"PriceFeedTool\"}");
                return Ok(out);
            }
            i += 1;
        }
        let mut e = "Unknown cryptocurrency: ".to_owned();
        e.append(symbol.as_str());
        Err(e)
    }
}

impl Tool for PriceFeedTool {
    open spec fn spec_name(&self) -> Seq<char> {
        "PriceFeedTool"@
    }

    open spec fn spec_policy_ids(&self) -> Seq<Seq<char>> {
        seq!["L1"@]
    }

    open spec fn spec_description(&self) -> Seq<char> {
        PRICE_FEED_DESCRIPTION@
    }

    open spec fn spec_parameters_schema(&self) -> Seq<char> {
        PRICE_FEED_SCHEMA@
    }

    fn name(&self) -> (name: &str) {
        "PriceFeedTool"
    }

    fn description(&self) -> (text: &str) {
        PRICE_FEED_DESCRIPTION
    }

    fn parameters_schema(&self) -> (schema: String) {
        PRICE_FEED_SCHEMA.to_owned()
    }

    fn execute(&self, arguments: &str, compliance_quote: Option<&ComplianceQuote>) -> (r: Result<
        String,
        String,
    >)
        ensures
            quote_refusal(self.spec_name(), quote_view(compliance_quote)) is None
                ==> outcome_view(r) == price_feed_answer(self.spec_data(), arguments@),
    {
        match check_attached_quote(self.name(), compliance_quote) {
            Err(e) => Err(e),
            Ok(_) => self.lookup(arguments),
        }
    }

    fn policy_ids(&self) -> (ids: Vec<String>) {
        let ids = vec!["L1".to_owned()];
        assert(ids.deep_view() =~= seq!["L1"@]);
        ids
    }

    fn policy_info(&self) -> (infos: Vec<PolicyInfo>) {
        proof {
            lemma_tool_names_differ();
        }
        default_policy_info(self.name(), Ghost(self.spec_policy_ids()))
    }
}

/// The number of items of a JSON array, zero for anything else.
pub open spec fn json_array_len(doc: Seq<char>) -> nat {
    match json_array_items(doc) {
        Some(items) => items.len(),
        None => 0,
    }
}

/// The number of items of a JSON array, zero for anything else.
fn array_len(doc: &str) -> (n: usize)
    ensures
        n == json_array_len(doc@),
{
    match array_items(doc) {
        Some(items) => items.len(),
        None => 0,
    }
}

/// Appends `key_part`, then `value`, to `out`.
fn push_pair(out: &mut String, key_part: &str, value: &str)
    ensures
        final(out)@ == old(out)@ + key_part@ + value@,
{
    out.append(key_part);
    out.append(value);
}

/// The blockchain that arguments name, in lowercase, if they name one.
pub open spec fn named_blockchain(arguments: Seq<char>) -> Option<Seq<char>> {
    match json_member_text(arguments, "blockchain"@) {
        Some(name) => Some(lowercase_of(name)),
        None => None,
    }
}

/// The data of a blockchain: the member of that name, where it is an
/// object.
pub open spec fn chain_data(data: Seq<char>, blockchain: Seq<char>) -> Option<Seq<char>> {
    match json_member_raw(data, blockchain) {
        Some(chain) => if json_object_len(chain) is Some {
            Some(chain)
        } else {
            None
        },
        None => None,
    }
}

/// Reads the blockchain that the arguments name and its data.
fn read_chain(data: &str, arguments: &str) -> (r: Result<(String, String, usize), String>)
    ensures
        match r {
            Ok((blockchain, chain, members)) => json_parse_error(arguments@) is None
                && named_blockchain(arguments@) == Some(blockchain@) && chain_data(
                data@,
                blockchain@,
            ) == Some(chain@) && json_object_len(chain@) == Some(members as nat),
            Err(e) => if json_parse_error(arguments@) is Some {
                e@ == invalid_arguments(arguments@)
            } else if named_blockchain(arguments@) is None {
                e@ == "Missing blockchain parameter"@
            } else {
                chain_data(data@, named_blockchain(arguments@)->0) is None && e@
                    == "Unsupported blockchain: "@ + named_blockchain(arguments@)->0
            },
        },
{
    check_arguments(arguments)?;
    let blockchain = match member_text(arguments, "blockchain") {
        Some(name) => lowercase(name.as_str()),
        None => {
            return Err("Missing blockchain parameter".to_owned());
        },
    };
    if let Some(chain) = member_raw(data, blockchain.as_str()) {
        if let Some(members) = object_len(chain.as_str()) {
            return Ok((blockchain, chain, members));
        }
    }
    let mut e = "Unsupported blockchain: ".to_owned();
    e.append(blockchain.as_str());
    Err(e)
}

// =============================================================================
// T2: OnChainHistoryTool - Policy: L1, L2, L3
// =============================================================================

/// T2: On-chain transaction history tool. Its data is a JSON document with
/// one member per blockchain, an object that holds the transactions of each
/// address under the address.
pub struct OnChainHistoryTool {
    data: String,
}

/// The result envelope of the history of one address.
pub open spec fn onchain_address_reply(
    address: Seq<char>,
    blockchain: Seq<char>,
    transactions: Seq<char>,
    timestamp: Seq<char>,
) -> Seq<char> {
    "{\"address\":"@ + json_quoted(address) + ",\"blockchain\":"@ + json_quoted(blockchain)
        + ",\"count\":"@ + decimal(json_array_len(transactions))
        + ",\"source\":\"On-Chain Data Provider\",\"timestamp\":"@ + json_quoted(timestamp)
        + ",\"tool\":\"OnChainHistoryTool\",\"transactions\":"@ + transactions + "}"@
}

/// The result envelope of the history of all addresses of a blockchain.
pub open spec fn onchain_all_reply(
    blockchain: Seq<char>,
    chain: Seq<char>,
    timestamp: Seq<char>,
) -> Seq<char> {
    "{\"address_count\":"@ + decimal(json_object_len(chain)->0) + ",\"all_addresses\":"@ + chain
        + ",\"blockchain\":"@ + json_quoted(blockchain)
        + ",\"source\":\"On-Chain Data Provider\",\"timestamp\":"@ + json_quoted(timestamp)
        + ",\"tool\":\"OnChainHistoryTool\"}"@
}

/// What the history tool answers at the time `timestamp` to arguments that
/// are not refused for their quote.
pub open spec fn onchain_answer(
    data: Seq<char>,
    arguments: Seq<char>,
    timestamp: Seq<char>,
) -> Result<Seq<char>, Seq<char>> {
    if json_parse_error(arguments) is Some {
        Err(invalid_arguments(arguments))
    } else if named_blockchain(arguments) is None {
        Err("Missing blockchain parameter"@)
    } else {
        let blockchain = named_blockchain(arguments)->0;
        match chain_data(data, blockchain) {
            None => Err("Unsupported blockchain: "@ + blockchain),
            Some(chain) => match json_member_text(arguments, "address"@) {
                Some(address) => match json_member_raw(chain, address) {
                    Some(transactions) => Ok(
                        onchain_address_reply(address, blockchain, transactions, timestamp),
                    ),
                    None => Err("No transaction history found for address: "@ + address),
                },
                None => Ok(onchain_all_reply(blockchain, chain, timestamp)),
            },
        }
    }
}

impl OnChainHistoryTool {
    /// The data of the tool.
    pub closed spec fn spec_data(&self) -> Seq<char> {
        self.data@
    }

    /// A history tool over `data`, a JSON document.
    pub fn new(data: String) -> (tool: Self)
        ensures
            tool.spec_data() == data@,
    {
        Self { data }
    }

    /// The native work of the tool, with `timestamp` as the time of the call.
    pub fn answer_at(&self, arguments: &str, timestamp: &str) -> (r: Result<String, String>)
        ensures
            outcome_view(r) == onchain_answer(self.spec_data(), arguments@, timestamp@),
    {
        let (blockchain, chain, members) = read_chain(self.data.as_str(), arguments)?;
        if let Some(address) = member_text(arguments, "address") {
            let transactions = match member_raw(chain.as_str(), address.as_str()) {
                Some(transactions) => transactions,
                None => {
                    let mut e = "No transaction history found for address: ".to_owned();
                    e.append(address.as_str());
                    return Err(e);
                },
            };
            let mut out = "{\"address\":".to_owned();
            out.append(quote(address.as_str()).as_str());
            push_pair(&mut out, ",\"blockchain\":", quote(blockchain.as_str()).as_str());
            push_pair(
                &mut out,
                ",\"count\":",
                decimal_string(array_len(transactions.as_str())).as_str(),
            );
            push_pair(
                &mut out,
                ",\"source\":\"On-Chain Data Provider\",\"timestamp\":",
                quote(timestamp).as_str(),
            );
            push_pair(
                &mut out,
                ",\"tool\":\"OnChainHistoryTool\",\"transactions\":",
                transactions.as_str(),
            );
            out.append("}");
            Ok(out)
        } else {
            let mut out = "{\"address_count\":".to_owned();
            out.append(decimal_string(members).as_str());
            push_pair(&mut out, ",\"all_addresses\":", chain.as_str());
            push_pair(&mut out, ",\"blockchain\":", quote(blockchain.as_str()).as_str());
            push_pair(
                &mut out,
                ",\"source\":\"On-Chain Data Provider\",\"timestamp\":",
                quote(timestamp).as_str(),
            );
            out.append(",\"tool\":\"OnChainHistoryTool\"}");
            Ok(out)
        }
    }
}

impl Tool for OnChainHistoryTool {
    open spec fn spec_name(&self) -> Seq<char> {
        "OnChainHistoryTool"@
    }

    open spec fn spec_policy_ids(&self) -> Seq<Seq<char>> {
        seq!["L1"@, "L2"@, "L3"@]
    }

    open spec fn spec_description(&self) -> Seq<char> {
        ONCHAIN_HISTORY_DESCRIPTION@
    }

    open spec fn spec_parameters_schema(&self) -> Seq<char> {
        ONCHAIN_HISTORY_SCHEMA@
    }

    fn name(&self) -> (name: &str) {
        "OnChainHistoryTool"
    }

    fn description(&self) -> (text: &str) {
        ONCHAIN_HISTORY_DESCRIPTION
    }

    fn parameters_schema(&self) -> (schema: String) {
        ONCHAIN_HISTORY_SCHEMA.to_owned()
    }

    fn execute(&self, arguments: &str, compliance_quote: Option<&ComplianceQuote>) -> (r: Result<
        String,
        String,
    >)
        ensures
            quote_refusal(self.spec_name(), quote_view(compliance_quote)) is None ==> exists|
                timestamp: Seq<char>,
            |
                outcome_view(r) == onchain_answer(self.spec_data(), arguments@, timestamp),
    {
        match check_attached_quote(self.name(), compliance_quote) {
            Err(e) => Err(e),
            Ok(_) => {
                let timestamp = now_rfc3339();
                self.answer_at(arguments, timestamp.as_str())
            },
        }
    }

    fn policy_ids(&self) -> (ids: Vec<String>) {
        let ids = vec!["L1".to_owned(), "L2".to_owned(), "L3".to_owned()];
        assert(ids.deep_view() =~= seq!["L1"@, "L2"@, "L3"@]);
        ids
    }

    fn policy_info(&self) -> (infos: Vec<PolicyInfo>) {
        proof {
            lemma_tool_names_differ();
        }
        default_policy_info(self.name(), Ghost(self.spec_policy_ids()))
    }
}

// =============================================================================
// T3: SentimentTool - Policy: L1, L4
// =============================================================================

/// T3: Market sentiment analysis tool. Its data is a JSON document with one
/// member per symbol, an object that holds under each timeframe an object
/// with the members `records`, `sentiment_score`, `sentiment_label` and
/// `mentions_count`: the records and the aggregates over them.
pub struct SentimentTool {
    data: String,
}

/// The timeframe that arguments name, `24h` where they name none.
pub open spec fn named_timeframe(arguments: Seq<char>) -> Seq<char> {
    match json_member_text(arguments, "timeframe"@) {
        Some(timeframe) => timeframe,
        None => "24h"@,
    }
}

/// The result envelope of the sentiment of one symbol over one timeframe.
pub open spec fn sentiment_reply(
    symbol: Seq<char>,
    timeframe: Seq<char>,
    summary: Seq<char>,
    timestamp: Seq<char>,
) -> Seq<char> {
    "{\"mentions_count\":"@ + json_index(summary, "mentions_count"@) + ",\"records\":"@
        + json_index(summary, "records"@) + ",\"sentiment_label\":"@ + json_index(
        summary,
        "sentiment_label"@,
    ) + ",\"sentiment_score\":"@ + json_index(summary, "sentiment_score"@)
        + ",\"source\":\"Social Media & News Analytics\",\"symbol\":"@ + json_quoted(symbol)
        + ",\"timeframe\":"@ + json_quoted(timeframe) + ",\"timestamp\":"@ + json_quoted(timestamp)
        + ",\"tool\":\"SentimentTool\"}"@
}

/// What the sentiment tool answers at the time `timestamp` to arguments
/// that are not refused for their quote.
pub open spec fn sentiment_answer(
    data: Seq<char>,
    arguments: Seq<char>,
    timestamp: Seq<char>,
) -> Result<Seq<char>, Seq<char>> {
    if json_parse_error(arguments) is Some {
        Err(invalid_arguments(arguments))
    } else if json_member_text(arguments, "symbol"@) is None {
        Err("Missing symbol parameter"@)
    } else {
        let symbol = uppercase_of(json_member_text(arguments, "symbol"@)->0);
        let timeframe = named_timeframe(arguments);
        match chain_data(data, symbol) {
            None => Err("Sentiment data not available for: "@ + symbol),
            Some(symbol_data) => match json_member_raw(symbol_data, timeframe) {
                None => Err("No data available for timeframe: "@ + timeframe),
                Some(summary) => Ok(sentiment_reply(symbol, timeframe, summary, timestamp)),
            },
        }
    }
}

impl SentimentTool {
    /// The data of the tool.
    pub closed spec fn spec_data(&self) -> Seq<char> {
        self.data@
    }

    /// A sentiment tool over `data`, a JSON document.
    pub fn new(data: String) -> (tool: Self)
        ensures
            tool.spec_data() == data@,
    {
        Self { data }
    }

    /// The native work of the tool, with `timestamp` as the time of the call.
    pub fn answer_at(&self, arguments: &str, timestamp: &str) -> (r: Result<String, String>)
        ensures
            outcome_view(r) == sentiment_answer(self.spec_data(), arguments@, timestamp@),
    {
        check_arguments(arguments)?;
        let symbol = match member_text(arguments, "symbol") {
            Some(s) => uppercase(s.as_str()),
            None => {
                return Err("Missing symbol parameter".to_owned());
            },
        };
        let timeframe = match member_text(arguments, "timeframe") {
            Some(timeframe) => timeframe,
            None => "24h".to_owned(),
        };
        let mut symbol_data: Option<String> = None;
        if let Some(found) = member_raw(self.data.as_str(), symbol.as_str()) {
            if object_len(found.as_str()).is_some() {
                symbol_data = Some(found);
            }
        }
        let symbol_data = match symbol_data {
            Some(symbol_data) => symbol_data,
            None => {
                let mut e = "Sentiment data not available for: ".to_owned();
                e.append(symbol.as_str());
                return Err(e);
            },
        };
        let summary = match member_raw(symbol_data.as_str(), timeframe.as_str()) {
            Some(summary) => summary,
            None => {
                let mut e = "No data available for timeframe: ".to_owned();
                e.append(timeframe.as_str());
                return Err(e);
            },
        };
        let summary = summary.as_str();
        let mut out = "{\"mentions_count\":".to_owned();
        out.append(index_raw(summary, "mentions_count").as_str());
        push_pair(&mut out, ",\"records\":", index_raw(summary, "records").as_str());
        push_pair(&mut out, ",\"sentiment_label\":", index_raw(summary, "sentiment_label").as_str());
        push_pair(&mut out, ",\"sentiment_score\":", index_raw(summary, "sentiment_score").as_str());
        push_pair(
            &mut out,
            ",\"source\":\"Social Media & News Analytics\",\"symbol\":",
            quote(symbol.as_str()).as_str(),
        );
        push_pair(&mut out, ",\"timeframe\":", quote(timeframe.as_str()).as_str());
        push_pair(&mut out, ",\"timestamp\":", quote(timestamp).as_str());
        out.append(",\"tool\":\"SentimentTool\"}");
        Ok(out)
    }
}

impl Tool for SentimentTool {
    open spec fn spec_name(&self) -> Seq<char> {
        "SentimentTool"@
    }

    open spec fn spec_policy_ids(&self) -> Seq<Seq<char>> {
        seq!["L1"@, "L4"@]
    }

    open spec fn spec_description(&self) -> Seq<char> {
        SENTIMENT_DESCRIPTION@
    }

    open spec fn spec_parameters_schema(&self) -> Seq<char> {
        SENTIMENT_SCHEMA@
    }

    fn name(&self) -> (name: &str) {
        "SentimentTool"
    }

    fn description(&self) -> (text: &str) {
        SENTIMENT_DESCRIPTION
    }

    fn parameters_schema(&self) -> (schema: String) {
        SENTIMENT_SCHEMA.to_owned()
    }

    fn execute(&self, arguments: &str, compliance_quote: Option<&ComplianceQuote>) -> (r: Result<
        String,
        String,
    >)
        ensures
            quote_refusal(self.spec_name(), quote_view(compliance_quote)) is None ==> exists|
                timestamp: Seq<char>,
            |
                outcome_view(r) == sentiment_answer(self.spec_data(), arguments@, timestamp),
    {
        match check_attached_quote(self.name(), compliance_quote) {
            Err(e) => Err(e),
            Ok(_) => {
                let timestamp = now_rfc3339();
                self.answer_at(arguments, timestamp.as_str())
            },
        }
    }

    fn policy_ids(&self) -> (ids: Vec<String>) {
        let ids = vec!["L1".to_owned(), "L4".to_owned()];
        assert(ids.deep_view() =~= seq!["L1"@, "L4"@]);
        ids
    }

    fn policy_info(&self) -> (infos: Vec<PolicyInfo>) {
        proof {
            lemma_tool_names_differ();
        }
        default_policy_info(self.name(), Ghost(self.spec_policy_ids()))
    }
}

// =============================================================================
// T4: PortfolioTool - Policy: L1, L2, L3, L4
// =============================================================================

/// T4: Portfolio analysis tool. Its data is a JSON document with one member
/// per blockchain, an object that holds the portfolio of each address under
/// the address.
pub struct PortfolioTool {
    data: String,
}

/// The result envelope of the portfolio of one address.
pub open spec fn portfolio_address_reply(
    address: Seq<char>,
    blockchain: Seq<char>,
    portfolio: Seq<char>,
    timestamp: Seq<char>,
) -> Seq<char> {
    "{\"address\":"@ + json_quoted(address) + ",\"blockchain\":"@ + json_quoted(blockchain)
        + ",\"holdings\":"@ + json_index(portfolio, "holdings"@) + ",\"last_updated\":"@
        + json_index(portfolio, "last_updated"@) + ",\"num_tokens\":"@ + decimal(
        json_array_len(json_index(portfolio, "holdings"@)),
    ) + ",\"source\":\"Portfolio Analytics Provider\",\"timestamp\":"@ + json_quoted(timestamp)
        + ",\"tool\":\"PortfolioTool\",\"total_value_usd\":"@ + json_index(
        portfolio,
        "total_value_usd"@,
    ) + "}"@
}

/// The result envelope of the portfolios of all addresses of a blockchain.
pub open spec fn portfolio_all_reply(
    blockchain: Seq<char>,
    chain: Seq<char>,
    timestamp: Seq<char>,
) -> Seq<char> {
    "{\"address_count\":"@ + decimal(json_object_len(chain)->0) + ",\"all_portfolios\":"@ + chain
        + ",\"blockchain\":"@ + json_quoted(blockchain)
        + ",\"source\":\"Portfolio Analytics Provider\",\"timestamp\":"@ + json_quoted(timestamp)
        + ",\"tool\":\"PortfolioTool\"}"@
}

/// What the portfolio tool answers at the time `timestamp` to arguments
/// that are not refused for their quote.
pub open spec fn portfolio_answer(
    data: Seq<char>,
    arguments: Seq<char>,
    timestamp: Seq<char>,
) -> Result<Seq<char>, Seq<char>> {
    if json_parse_error(arguments) is Some {
        Err(invalid_arguments(arguments))
    } else if named_blockchain(arguments) is None {
        Err("Missing blockchain parameter"@)
    } else {
        let blockchain = named_blockchain(arguments)->0;
        match chain_data(data, blockchain) {
            None => Err("Unsupported blockchain: "@ + blockchain),
            Some(chain) => match json_member_text(arguments, "address"@) {
                Some(address) => match json_member_raw(chain, address) {
                    Some(portfolio) => Ok(
                        portfolio_address_reply(address, blockchain, portfolio, timestamp),
                    ),
                    None => Err("No portfolio data found for address: "@ + address),
                },
                None => Ok(portfolio_all_reply(blockchain, chain, timestamp)),
            },
        }
    }
}

impl PortfolioTool {
    /// The data of the tool.
    pub closed spec fn spec_data(&self) -> Seq<char> {
        self.data@
    }

    /// A portfolio tool over `data`, a JSON document.
    pub fn new(data: String) -> (tool: Self)
        ensures
            tool.spec_data() == data@,
    {
        Self { data }
    }

    /// The native work of the tool, with `timestamp` as the time of the call.
    pub fn answer_at(&self, arguments: &str, timestamp: &str) -> (r: Result<String, String>)
        ensures
            outcome_view(r) == portfolio_answer(self.spec_data(), arguments@, timestamp@),
    {
        let (blockchain, chain, members) = read_chain(self.data.as_str(), arguments)?;
        if let Some(address) = member_text(arguments, "address") {
            let portfolio = match member_raw(chain.as_str(), address.as_str()) {
                Some(portfolio) => portfolio,
                None => {
                    let mut e = "No portfolio data found for address: ".to_owned();
                    e.append(address.as_str());
                    return Err(e);
                },
            };
            let portfolio = portfolio.as_str();
            let holdings = index_raw(portfolio, "holdings");
            let mut out = "{\"address\":".to_owned();
            out.append(quote(address.as_str()).as_str());
            push_pair(&mut out, ",\"blockchain\":", quote(blockchain.as_str()).as_str());
            push_pair(&mut out, ",\"holdings\":", holdings.as_str());
            push_pair(&mut out, ",\"last_updated\":", index_raw(portfolio, "last_updated").as_str());
            push_pair(
                &mut out,
                ",\"num_tokens\":",
                decimal_string(array_len(holdings.as_str())).as_str(),
            );
            push_pair(
                &mut out,
                ",\"source\":\"Portfolio Analytics Provider\",\"timestamp\":",
                quote(timestamp).as_str(),
            );
            push_pair(
                &mut out,
                ",\"tool\":\"PortfolioTool\",\"total_value_usd\":",
                index_raw(portfolio, "total_value_usd").as_str(),
            );
            out.append("}");
            Ok(out)
        } else {
            let mut out = "{\"address_count\":".to_owned();
            out.append(decimal_string(members).as_str());
            push_pair(&mut out, ",\"all_portfolios\":", chain.as_str());
            push_pair(&mut out, ",\"blockchain\":", quote(blockchain.as_str()).as_str());
            push_pair(
                &mut out,
                ",\"source\":\"Portfolio Analytics Provider\",\"timestamp\":",
                quote(timestamp).as_str(),
            );
            out.append(",\"tool\":\"PortfolioTool\"}");
            Ok(out)
        }
    }
}

impl Tool for PortfolioTool {
    open spec fn spec_name(&self) -> Seq<char> {
        "PortfolioTool"@
    }

    open spec fn spec_policy_ids(&self) -> Seq<Seq<char>> {
        seq!["L1"@, "L2"@, "L3"@, "L4"@]
    }

    open spec fn spec_description(&self) -> Seq<char> {
        PORTFOLIO_DESCRIPTION@
    }

    open spec fn spec_parameters_schema(&self) -> Seq<char> {
        PORTFOLIO_SCHEMA@
    }

    fn name(&self) -> (name: &str) {
        "PortfolioTool"
    }

    fn description(&self) -> (text: &str) {
        PORTFOLIO_DESCRIPTION
    }

    fn parameters_schema(&self) -> (schema: String) {
        PORTFOLIO_SCHEMA.to_owned()
    }

    fn execute(&self, arguments: &str, compliance_quote: Option<&ComplianceQuote>) -> (r: Result<
        String,
        String,
    >)
        ensures
            quote_refusal(self.spec_name(), quote_view(compliance_quote)) is None ==> exists|
                timestamp: Seq<char>,
            |
                outcome_view(r) == portfolio_answer(self.spec_data(), arguments@, timestamp),
    {
        match check_attached_quote(self.name(), compliance_quote) {
            Err(e) => Err(e),
            Ok(_) => {
                let timestamp = now_rfc3339();
                self.answer_at(arguments, timestamp.as_str())
            },
        }
    }

    fn policy_ids(&self) -> (ids: Vec<String>) {
        let ids = vec!["L1".to_owned(), "L2".to_owned(), "L3".to_owned(), "L4".to_owned()];
        assert(ids.deep_view() =~= seq!["L1"@, "L2"@, "L3"@, "L4"@]);
        ids
    }

    fn policy_info(&self) -> (infos: Vec<PolicyInfo>) {
        proof {
            lemma_tool_names_differ();
        }
        default_policy_info(self.name(), Ghost(self.spec_policy_ids()))
    }
}

// =============================================================================
// Tool Registry
// =============================================================================

/// One of the registered tools.
pub enum RegisteredTool {
    PriceFeed(PriceFeedTool),
    OnChainHistory(OnChainHistoryTool),
    Sentiment(SentimentTool),
    Portfolio(PortfolioTool),
}

impl RegisteredTool {
    /// What the tool answers, whatever the time, to a call that is not
    /// refused for its quote.
    pub open spec fn spec_answers(
        &self,
        arguments: Seq<char>,
        outcome: Result<Seq<char>, Seq<char>>,
    ) -> bool {
        match self {
            RegisteredTool::PriceFeed(tool) => outcome == price_feed_answer(
                tool.spec_data(),
                arguments,
            ),
            RegisteredTool::OnChainHistory(tool) => exists|timestamp: Seq<char>|
                outcome == onchain_answer(tool.spec_data(), arguments, timestamp),
            RegisteredTool::Sentiment(tool) => exists|timestamp: Seq<char>|
                outcome == sentiment_answer(tool.spec_data(), arguments, timestamp),
            RegisteredTool::Portfolio(tool) => exists|timestamp: Seq<char>|
                outcome == portfolio_answer(tool.spec_data(), arguments, timestamp),
        }
    }
}

impl Tool for RegisteredTool {
    open spec fn spec_name(&self) -> Seq<char> {
        match self {
            RegisteredTool::PriceFeed(tool) => tool.spec_name(),
            RegisteredTool::OnChainHistory(tool) => tool.spec_name(),
            RegisteredTool::Sentiment(tool) => tool.spec_name(),
            RegisteredTool::Portfolio(tool) => tool.spec_name(),
        }
    }

    open spec fn spec_policy_ids(&self) -> Seq<Seq<char>> {
        match self {
            RegisteredTool::PriceFeed(tool) => tool.spec_policy_ids(),
            RegisteredTool::OnChainHistory(tool) => tool.spec_policy_ids(),
            RegisteredTool::Sentiment(tool) => tool.spec_policy_ids(),
            RegisteredTool::Portfolio(tool) => tool.spec_policy_ids(),
        }
    }

    open spec fn spec_description(&self) -> Seq<char> {
        match self {
            RegisteredTool::PriceFeed(tool) => tool.spec_description(),
            RegisteredTool::OnChainHistory(tool) => tool.spec_description(),
            RegisteredTool::Sentiment(tool) => tool.spec_description(),
            RegisteredTool::Portfolio(tool) => tool.spec_description(),
        }
    }

    open spec fn spec_parameters_schema(&self) -> Seq<char> {
        match self {
            RegisteredTool::PriceFeed(tool) => tool.spec_parameters_schema(),
            RegisteredTool::OnChainHistory(tool) => tool.spec_parameters_schema(),
            RegisteredTool::Sentiment(tool) => tool.spec_parameters_schema(),
            RegisteredTool::Portfolio(tool) => tool.spec_parameters_schema(),
        }
    }

    fn name(&self) -> (name: &str) {
        match self {
            RegisteredTool::PriceFeed(tool) => tool.name(),
            RegisteredTool::OnChainHistory(tool) => tool.name(),
            RegisteredTool::Sentiment(tool) => tool.name(),
            RegisteredTool::Portfolio(tool) => tool.name(),
        }
    }

    fn description(&self) -> (text: &str) {
        match self {
            RegisteredTool::PriceFeed(tool) => tool.description(),
            RegisteredTool::OnChainHistory(tool) => tool.description(),
            RegisteredTool::Sentiment(tool) => tool.description(),
            RegisteredTool::Portfolio(tool) => tool.description(),
        }
    }

    fn parameters_schema(&self) -> (schema: String) {
        match self {
            RegisteredTool::PriceFeed(tool) => tool.parameters_schema(),
            RegisteredTool::OnChainHistory(tool) => tool.parameters_schema(),
            RegisteredTool::Sentiment(tool) => tool.parameters_schema(),
            RegisteredTool::Portfolio(tool) => tool.parameters_schema(),
        }
    }

    fn execute(&self, arguments: &str, compliance_quote: Option<&ComplianceQuote>) -> (r: Result<
        String,
        String,
    >)
        ensures
            quote_refusal(self.spec_name(), quote_view(compliance_quote)) is None
                ==> self.spec_answers(arguments@, outcome_view(r)),
    {
        match self {
            RegisteredTool::PriceFeed(tool) => tool.execute(arguments, compliance_quote),
            RegisteredTool::OnChainHistory(tool) => tool.execute(arguments, compliance_quote),
            RegisteredTool::Sentiment(tool) => tool.execute(arguments, compliance_quote),
            RegisteredTool::Portfolio(tool) => tool.execute(arguments, compliance_quote),
        }
    }

    fn policy_ids(&self) -> (ids: Vec<String>) {
        match self {
            RegisteredTool::PriceFeed(tool) => tool.policy_ids(),
            RegisteredTool::OnChainHistory(tool) => tool.policy_ids(),
            RegisteredTool::Sentiment(tool) => tool.policy_ids(),
            RegisteredTool::Portfolio(tool) => tool.policy_ids(),
        }
    }

    fn policy_info(&self) -> (infos: Vec<PolicyInfo>) {
        match self {
            RegisteredTool::PriceFeed(tool) => tool.policy_info(),
            RegisteredTool::OnChainHistory(tool) => tool.policy_info(),
            RegisteredTool::Sentiment(tool) => tool.policy_info(),
            RegisteredTool::Portfolio(tool) => tool.policy_info(),
        }
    }
}

/// The first position at or after `from` of a tool whose name is `name`.
pub open spec fn find_tool(tools: Seq<RegisteredTool>, name: Seq<char>, from: int) -> Option<int>
    decreases tools.len() - from,
{
    if from < 0 || from >= tools.len() {
        None
    } else if tools[from].spec_name() == name {
        Some(from)
    } else {
        find_tool(tools, name, from + 1)
    }
}

/// The outcome that `execute_tool_call` records of a tool's answer.
pub open spec fn recorded(
    call: ToolCall,
    outcome: Result<Seq<char>, Seq<char>>,
    result: ToolResult,
) -> bool {
    &&& result.call_id@ == call.id@
    &&& match outcome {
        Ok(data) => result.success && result.result@ == data && result.error is None
            && result.quote_verified == call.compliance_quote is Some,
        Err(e) => !result.success && result.result@ == Seq::<char>::empty() && result.error
            is Some && result.error->0@ == e && !result.quote_verified,
    }
}

/// The text of one policy as the tool description block lists it.
pub open spec fn policy_label(pair: (Seq<char>, Seq<char>)) -> Seq<char> {
    pair.0 + " ("@ + pair.1 + ")"@
}

/// The labels of the first `n` policies, separated by a comma and a space.
pub open spec fn policy_labels(pairs: Seq<(Seq<char>, Seq<char>)>, n: int) -> Seq<char>
    decreases n,
{
    if n <= 0 {
        Seq::<char>::empty()
    } else if n == 1 {
        policy_label(pairs[0])
    } else {
        policy_labels(pairs, n - 1) + ", "@ + policy_label(pairs[n - 1])
    }
}

/// The entry of one tool in the description block.
pub open spec fn tool_entry(tool: RegisteredTool) -> Seq<char> {
    let pairs = policy_infos(
        default_policies(),
        tool.spec_policy_ids(),
        tool.spec_policy_ids().len() as int,
    );
    "- "@ + tool.spec_name() + ": "@ + tool.spec_description() + "\n  Parameters: "@
        + tool.spec_parameters_schema() + "\n  Policies: "@ + policy_labels(
        pairs,
        pairs.len() as int,
    ) + "\n\n"@
}

/// The entries of the first `n` tools, one after the other.
pub open spec fn tool_entries(tools: Seq<RegisteredTool>, n: int) -> Seq<char>
    decreases n,
{
    if n <= 0 {
        Seq::<char>::empty()
    } else {
        tool_entries(tools, n - 1) + tool_entry(tools[n - 1])
    }
}

/// The description block of a list of tools.
pub open spec fn tool_descriptions(tools: Seq<RegisteredTool>) -> Seq<char> {
    "Available tools:\n\n"@ + tool_entries(tools, tools.len() as int)
}

/// The labels of a list of policies, separated by a comma and a space.
fn join_policy_labels(policy_info: &Vec<PolicyInfo>) -> (text: String)
    ensures
        text@ == policy_labels(info_pairs(policy_info@), policy_info.len() as int),
{
    let mut text = String::new();
    let mut k: usize = 0;
    while k < policy_info.len()
        invariant
            k <= policy_info.len(),
            text@ == policy_labels(info_pairs(policy_info@), k as int),
        decreases policy_info.len() - k,
    {
        if k > 0 {
            text.append(", ");
        }
        text.append(policy_info[k].id.as_str());
        text.append(" (");
        text.append(policy_info[k].name.as_str());
        text.append(")");
        k += 1;
        assert(text@ =~= policy_labels(info_pairs(policy_info@), k as int));
    }
    text
}

/// The entry of one tool in the description block.
fn describe_tool(tool: &RegisteredTool) -> (entry: String)
    ensures
        entry@ == tool_entry(*tool),
{
    let policy_info = tool.policy_info();
    assert(info_pairs(policy_info@).len() == policy_info.len());
    let policy_str = join_policy_labels(&policy_info);
    let mut entry = "- ".to_owned();
    entry.append(tool.name());
    entry.append(": ");
    entry.append(tool.description());
    entry.append("\n  Parameters: ");
    entry.append(tool.parameters_schema().as_str());
    entry.append("\n  Policies: ");
    entry.append(policy_str.as_str());
    entry.append("\n\n");
    entry
}

/// Tool registry for managing available tools
pub struct ToolRegistry {
    tools: Vec<RegisteredTool>,
}

impl ToolRegistry {
    /// The registered tools, in order.
    pub closed spec fn spec_tools(&self) -> Seq<RegisteredTool> {
        self.tools@
    }

    /// Create a new tool registry with the T1-T4 crypto tools, each over
    /// its data.
    pub fn new_crypto_tools(
        price_feed: String,
        onchain_history: String,
        sentiment: String,
        portfolio: String,
    ) -> (registry: Self)
        ensures
            registry.spec_tools().len() == 4,
            registry.spec_tools()[0] matches RegisteredTool::PriceFeed(t) && t.spec_data()
                == price_feed@,
            registry.spec_tools()[1] matches RegisteredTool::OnChainHistory(t) && t.spec_data()
                == onchain_history@,
            registry.spec_tools()[2] matches RegisteredTool::Sentiment(t) && t.spec_data()
                == sentiment@,
            registry.spec_tools()[3] matches RegisteredTool::Portfolio(t) && t.spec_data()
                == portfolio@,
    {
        Self {
            tools: vec![
                RegisteredTool::PriceFeed(PriceFeedTool::new(price_feed)),
                RegisteredTool::OnChainHistory(OnChainHistoryTool::new(onchain_history)),
                RegisteredTool::Sentiment(SentimentTool::new(sentiment)),
                RegisteredTool::Portfolio(PortfolioTool::new(portfolio)),
            ],
        }
    }

    /// Get a tool by name
    pub fn get_tool(&self, name: &str) -> (tool: Option<&RegisteredTool>)
        ensures
            match tool {
                Some(t) => find_tool(self.spec_tools(), name@, 0) is Some && *t
                    == self.spec_tools()[find_tool(self.spec_tools(), name@, 0)->0],
                None => find_tool(self.spec_tools(), name@, 0) is None,
            },
    {
        let mut i: usize = 0;
        while i < self.tools.len()
            invariant
                i <= self.tools.len(),
                find_tool(self.tools@, name@, 0) == find_tool(self.tools@, name@, i as int),
            decreases self.tools.len() - i,
        {
            if str_eq(self.tools[i].name(), name) {
                return Some(&self.tools[i]);
            }
            i += 1;
        }
        None
    }

    /// Get all available tools
    pub fn all_tools(&self) -> (tools: &Vec<RegisteredTool>)
        ensures
            tools@ == self.spec_tools(),
    {
        &self.tools
    }

    /// `result` is what the registry records of executing `call`: the
    /// failure of a tool that is not found or that refuses the attached
    /// quote, and else an answer of the tool.
    pub open spec fn spec_executes(&self, call: ToolCall, result: ToolResult) -> bool {
        match find_tool(self.spec_tools(), call.tool_name@, 0) {
            None => recorded(call, Err("Tool not found: "@ + call.tool_name@), result),
            Some(i) => {
                let tool = self.spec_tools()[i];
                match quote_refusal(tool.spec_name(), call.deep_view().compliance_quote) {
                    Some(e) => recorded(call, Err(e), result),
                    None => exists|outcome: Result<Seq<char>, Seq<char>>|
                        tool.spec_answers(call.arguments@, outcome) && recorded(
                            call,
                            outcome,
                            result,
                        ),
                }
            },
        }
    }

    /// Execute a tool call with compliance quote verification. The result
    /// is marked as verified where a quote was attached and the tool
    /// succeeded.
    pub fn execute_tool_call(&self, call: &ToolCall) -> (result: ToolResult)
        ensures
            self.spec_executes(*call, result),
    {
        let outcome = match self.get_tool(call.tool_name.as_str()) {
            None => {
                let mut e = "Tool not found: ".to_owned();
                e.append(call.tool_name.as_str());
                Err(e)
            },
            Some(tool) => tool.execute(call.arguments.as_str(), call.compliance_quote.as_ref()),
        };
        let ghost seen = outcome_view(outcome);
        let result = match outcome {
            Ok(data) => ToolResult {
                call_id: call.id,
                success: true,
                result: data,
                error: None,
                quote_verified: call.compliance_quote.is_some(),
            },
            Err(e) => ToolResult {
                call_id: call.id,
                success: false,
                result: String::new(),
                error: Some(e),
                quote_verified: false,
            },
        };
        assert(recorded(*call, seen, result));
        result
    }

    /// Generate tool descriptions for LLM prompt: per tool its name,
    /// description, parameter schema and policies.
    pub fn generate_tool_descriptions(&self) -> (descriptions: String)
        ensures
            descriptions@ == tool_descriptions(self.spec_tools()),
    {
        let mut descriptions = "Available tools:\n\n".to_owned();
        let mut i: usize = 0;
        assert(descriptions@ =~= "Available tools:\n\n"@ + tool_entries(self.tools@, 0));
        while i < self.tools.len()
            invariant
                i <= self.tools.len(),
                descriptions@ == "Available tools:\n\n"@ + tool_entries(self.tools@, i as int),
            decreases self.tools.len() - i,
        {
            let entry = describe_tool(&self.tools[i]);
            descriptions.append(entry.as_str());
            i += 1;
            assert(descriptions@ =~= "Available tools:\n\n"@ + tool_entries(self.tools@, i as int));
        }
        descriptions
    }
}

} // verus!
