use hypervisor::agent::quote_utils::{compliance_report, generate_compliance_quote};
use hypervisor::agent::tools::{
    check_attached_quote, OnChainHistoryTool, PortfolioTool, PriceFeedTool, RegisteredTool,
    SentimentTool, Tool, ToolRegistry,
};
use hypervisor::agent::types::{ComplianceQuote, Timestamp, ToolCall, Uuid};

const PRICES: &str = r#"{"prices":[{"symbol":"BTC","price_usd":43250.5,"market_cap":850000000000,"24h_volume":28000000000,"24h_change_pct":2.5,"last_updated":"2025-11-20T10:00:00Z"},{"symbol":"ETH","price_usd":2280.75,"market_cap":274000000000}]}"#;
const ONCHAIN: &str = r#"{"ethereum":{"0xabc":[{"hash":"0x1","value":1.5},{"hash":"0x2","value":2}],"0xdef":[]},"bitcoin":{},"solana":7}"#;
const SENTIMENT: &str = r#"{"BTC":{"24h":{"records":[{"score":0.7,"mention_count":10},{"score":0.5,"mention_count":5}],"sentiment_score":0.6,"sentiment_label":"Positive","mentions_count":15},"7d":{"records":[],"sentiment_score":0.0,"sentiment_label":"Negative","mentions_count":0}}}"#;
const PORTFOLIO: &str = r#"{"ethereum":{"0xabc":{"holdings":[{"token":"ETH","amount":2},{"token":"USDC","amount":100}],"total_value_usd":4661.5,"last_updated":"2025-11-20T10:00:00Z"},"0xempty":{}}}"#;

fn registry() -> ToolRegistry {
    ToolRegistry::new_crypto_tools(
        PRICES.to_string(),
        ONCHAIN.to_string(),
        SENTIMENT.to_string(),
        PORTFOLIO.to_string(),
    )
}

/// A version 4 TDX quote around `report_data`.
fn quote_around(report_data: &[u8; 64]) -> Vec<u8> {
    let mut bytes = vec![0u8; 636 + 134];
    bytes[0] = 4;
    bytes[2] = 2;
    bytes[4] = 0x81;
    bytes[568..632].copy_from_slice(report_data);
    bytes[632..636].copy_from_slice(&134u32.to_le_bytes());
    bytes
}

fn approval(tool: &str, ids: &[String], query: &str, arguments: &str, compliant: bool) -> ComplianceQuote {
    let report = compliance_report(tool, compliant, ids, query, arguments).to_bytes();
    generate_compliance_quote(tool, compliant, ids, query, arguments, quote_around(&report))
}

fn timestamp_of(reply: &str) -> String {
    let value: serde_json::Value = serde_json::from_str(reply).unwrap();
    value["timestamp"].as_str().unwrap().to_string()
}

#[test]
fn price_feed_reports_the_record_of_the_symbol() {
    let tool = PriceFeedTool::new(PRICES.to_string());
    assert_eq!(tool.name(), "PriceFeedTool");
    assert_eq!(
        tool.execute(r#"{"symbol": "btc"}"#, None).unwrap(),
        r#"{"24h_change_pct":2.5,"24h_volume":28000000000,"last_updated":"2025-11-20T10:00:00Z","market_cap":850000000000,"price_usd":43250.5,"source":"Market Data Feed","symbol":"BTC","tool":"PriceFeedTool"}"#
    );
    // members that the record lacks are null
    assert_eq!(
        tool.execute(r#"{"symbol": "ETH"}"#, None).unwrap(),
        r#"{"24h_change_pct":null,"24h_volume":null,"last_updated":null,"market_cap":274000000000,"price_usd":2280.75,"source":"Market Data Feed","symbol":"ETH","tool":"PriceFeedTool"}"#
    );
}

#[test]
fn price_feed_errors() {
    let tool = PriceFeedTool::new(PRICES.to_string());
    let e = tool.execute("not json", None).unwrap_err();
    assert!(e.starts_with("Invalid arguments: "), "{}", e);
    assert!(e.len() > "Invalid arguments: ".len());
    assert_eq!(tool.execute("{}", None).unwrap_err(), "Missing symbol parameter");
    assert_eq!(tool.execute(r#"{"symbol": 5}"#, None).unwrap_err(), "Missing symbol parameter");
    assert_eq!(tool.execute(r#"{"symbol": "doge"}"#, None).unwrap_err(), "Unknown cryptocurrency: DOGE");
    let broken = PriceFeedTool::new(r#"{"prices": 5}"#.to_string());
    assert_eq!(broken.execute(r#"{"symbol": "BTC"}"#, None).unwrap_err(), "Invalid price data format");
    let empty = PriceFeedTool::new("{}".to_string());
    assert_eq!(empty.execute(r#"{"symbol": "BTC"}"#, None).unwrap_err(), "Invalid price data format");
}

#[test]
fn attached_quotes_are_checked_first() {
    let tool = PriceFeedTool::new(PRICES.to_string());
    let ids = tool.policy_ids();
    assert_eq!(ids, vec!["L1"]);
    let query = "What is the price of BTC?";
    let arguments = r#"{"symbol":"BTC"}"#;

    let good = approval("PriceFeedTool", &ids, query, arguments, true);
    assert!(check_attached_quote("PriceFeedTool", Some(&good)).is_ok());
    assert!(check_attached_quote("PriceFeedTool", None).is_ok());
    assert!(tool.execute(arguments, Some(&good)).is_ok());

    // a quote for another tool
    let other = approval("SentimentTool", &ids, query, arguments, true);
    assert_eq!(
        tool.execute(arguments, Some(&other)).unwrap_err(),
        "Compliance quote verification failed"
    );
    // a quote that records a refusal
    let refusal = approval("PriceFeedTool", &ids, query, arguments, false);
    assert_eq!(
        tool.execute(arguments, Some(&refusal)).unwrap_err(),
        "Tool use was rejected by compliance policy"
    );
    // a quote without bytes; the arguments are not even looked at
    let mut empty = good.clone();
    empty.quote_bytes.clear();
    assert_eq!(
        tool.execute("not json", Some(&empty)).unwrap_err(),
        "Compliance quote verification failed"
    );
    // the other tools check alike
    let history = OnChainHistoryTool::new(ONCHAIN.to_string());
    assert_eq!(
        history.execute(r#"{"blockchain":"ethereum"}"#, Some(&good)).unwrap_err(),
        "Compliance quote verification failed"
    );
    let sentiment = SentimentTool::new(SENTIMENT.to_string());
    assert_eq!(
        sentiment.execute(r#"{"symbol":"BTC"}"#, Some(&refusal)).unwrap_err(),
        "Compliance quote verification failed"
    );
    let portfolio = PortfolioTool::new(PORTFOLIO.to_string());
    assert_eq!(
        portfolio.execute(r#"{"blockchain":"ethereum"}"#, Some(&empty)).unwrap_err(),
        "Compliance quote verification failed"
    );
}

#[test]
fn onchain_history_answers() {
    let tool = OnChainHistoryTool::new(ONCHAIN.to_string());
    assert_eq!(
        tool.answer_at(r#"{"blockchain":"Ethereum","address":"0xabc"}"#, "2025-01-01T00:00:00+00:00").unwrap(),
        r#"{"address":"0xabc","blockchain":"ethereum","count":2,"source":"On-Chain Data Provider","timestamp":"2025-01-01T00:00:00+00:00","tool":"OnChainHistoryTool","transactions":[{"hash":"0x1","value":1.5},{"hash":"0x2","value":2}]}"#
    );
    assert_eq!(
        tool.answer_at(r#"{"blockchain":"ethereum"}"#, "T").unwrap(),
        r#"{"address_count":2,"all_addresses":{"0xabc":[{"hash":"0x1","value":1.5},{"hash":"0x2","value":2}],"0xdef":[]},"blockchain":"ethereum","source":"On-Chain Data Provider","timestamp":"T","tool":"OnChainHistoryTool"}"#
    );
    assert_eq!(
        tool.answer_at(r#"{"blockchain":"bitcoin"}"#, "T").unwrap(),
        r#"{"address_count":0,"all_addresses":{},"blockchain":"bitcoin","source":"On-Chain Data Provider","timestamp":"T","tool":"OnChainHistoryTool"}"#
    );
    assert_eq!(tool.answer_at("{}", "T").unwrap_err(), "Missing blockchain parameter");
    assert!(tool.answer_at("[", "T").unwrap_err().starts_with("Invalid arguments: "));
    assert_eq!(
        tool.answer_at(r#"{"blockchain":"Dogecoin"}"#, "T").unwrap_err(),
        "Unsupported blockchain: dogecoin"
    );
    // a member that is no object is no blockchain
    assert_eq!(
        tool.answer_at(r#"{"blockchain":"solana"}"#, "T").unwrap_err(),
        "Unsupported blockchain: solana"
    );
    assert_eq!(
        tool.answer_at(r#"{"blockchain":"ethereum","address":"0x0"}"#, "T").unwrap_err(),
        "No transaction history found for address: 0x0"
    );
    // the tool stamps the time of the call
    let reply = tool.execute(r#"{"blockchain":"ethereum","address":"0xdef"}"#, None).unwrap();
    let stamp = timestamp_of(&reply);
    assert!(stamp.len() >= 20 && stamp.contains('T'));
    assert_eq!(reply, tool.answer_at(r#"{"blockchain":"ethereum","address":"0xdef"}"#, &stamp).unwrap());
    assert!(reply.contains(r#""count":0"#));
}

#[test]
fn sentiment_answers() {
    let tool = SentimentTool::new(SENTIMENT.to_string());
    assert_eq!(
        tool.answer_at(r#"{"symbol":"btc"}"#, "T").unwrap(),
        r#"{"mentions_count":15,"records":[{"mention_count":10,"score":0.7},{"mention_count":5,"score":0.5}],"sentiment_label":"Positive","sentiment_score":0.6,"source":"Social Media & News Analytics","symbol":"BTC","timeframe":"24h","timestamp":"T","tool":"SentimentTool"}"#
    );
    let week = tool.answer_at(r#"{"symbol":"BTC","timeframe":"7d"}"#, "T").unwrap();
    assert!(week.starts_with(r#"{"mentions_count":0,"records":[],"sentiment_label":"Negative","sentiment_score":0.0,"#));
    assert!(week.contains(r#""timeframe":"7d""#));
    assert_eq!(tool.answer_at("{}", "T").unwrap_err(), "Missing symbol parameter");
    assert_eq!(
        tool.answer_at(r#"{"symbol":"eth"}"#, "T").unwrap_err(),
        "Sentiment data not available for: ETH"
    );
    assert_eq!(
        tool.answer_at(r#"{"symbol":"BTC","timeframe":"30d"}"#, "T").unwrap_err(),
        "No data available for timeframe: 30d"
    );
    let reply = tool.execute(r#"{"symbol":"BTC"}"#, None).unwrap();
    assert_eq!(reply, tool.answer_at(r#"{"symbol":"BTC"}"#, &timestamp_of(&reply)).unwrap());
}

#[test]
fn portfolio_answers() {
    let tool = PortfolioTool::new(PORTFOLIO.to_string());
    assert_eq!(
        tool.answer_at(r#"{"blockchain":"ETHEREUM","address":"0xabc"}"#, "T").unwrap(),
        r#"{"address":"0xabc","blockchain":"ethereum","holdings":[{"amount":2,"token":"ETH"},{"amount":100,"token":"USDC"}],"last_updated":"2025-11-20T10:00:00Z","num_tokens":2,"source":"Portfolio Analytics Provider","timestamp":"T","tool":"PortfolioTool","total_value_usd":4661.5}"#
    );
    assert_eq!(
        tool.answer_at(r#"{"blockchain":"ethereum","address":"0xempty"}"#, "T").unwrap(),
        r#"{"address":"0xempty","blockchain":"ethereum","holdings":null,"last_updated":null,"num_tokens":0,"source":"Portfolio Analytics Provider","timestamp":"T","tool":"PortfolioTool","total_value_usd":null}"#
    );
    let all = tool.answer_at(r#"{"blockchain":"ethereum"}"#, "T").unwrap();
    assert!(all.starts_with(r#"{"address_count":2,"all_portfolios":{"0xabc":{"#));
    assert!(all.ends_with(r#""blockchain":"ethereum","source":"Portfolio Analytics Provider","timestamp":"T","tool":"PortfolioTool"}"#));
    assert_eq!(
        tool.answer_at(r#"{"blockchain":"ethereum","address":"0x0"}"#, "T").unwrap_err(),
        "No portfolio data found for address: 0x0"
    );
    assert_eq!(tool.answer_at(r#"{"address":"0xabc"}"#, "T").unwrap_err(), "Missing blockchain parameter");
    assert_eq!(
        tool.answer_at(r#"{"blockchain":"tron"}"#, "T").unwrap_err(),
        "Unsupported blockchain: tron"
    );
    let reply = tool.execute(r#"{"blockchain":"ethereum"}"#, None).unwrap();
    assert_eq!(reply, tool.answer_at(r#"{"blockchain":"ethereum"}"#, &timestamp_of(&reply)).unwrap());
}

#[test]
fn tools_declare_their_policies() {
    let registry = registry();
    let declared: Vec<(String, Vec<String>)> =
        registry.all_tools().iter().map(|t| (t.name().to_string(), t.policy_ids())).collect();
    assert_eq!(declared.len(), 4);
    assert_eq!(declared[0], ("PriceFeedTool".to_string(), vec!["L1".to_string()]));
    assert_eq!(declared[1].0, "OnChainHistoryTool");
    assert_eq!(declared[1].1, vec!["L1", "L2", "L3"]);
    assert_eq!(declared[2].0, "SentimentTool");
    assert_eq!(declared[2].1, vec!["L1", "L4"]);
    assert_eq!(declared[3].0, "PortfolioTool");
    assert_eq!(declared[3].1, vec!["L1", "L2", "L3", "L4"]);
    let info = registry.get_tool("SentimentTool").unwrap().policy_info();
    assert_eq!(info.len(), 2);
    assert_eq!(info[1].id, "L4");
    assert_eq!(info[1].name, "Source attribution & timestamp");
    assert!(registry.get_tool("sentimenttool").is_none());
    assert!(matches!(registry.get_tool("PortfolioTool"), Some(RegisteredTool::Portfolio(_))));
    for tool in registry.all_tools() {
        let schema: serde_json::Value = serde_json::from_str(&tool.parameters_schema()).unwrap();
        assert_eq!(schema["type"], "object");
        assert_eq!(serde_json::to_string(&schema).unwrap(), tool.parameters_schema());
        assert!(!tool.description().is_empty());
    }
}

#[test]
fn tool_descriptions_list_every_tool() {
    let text = registry().generate_tool_descriptions();
    assert!(text.starts_with(
        "Available tools:\n\n- PriceFeedTool: Get current cryptocurrency prices in USD. Returns real-time price data with timestamp.\n  Parameters: {\"properties\":{\"symbol\":{\"description\":\"The cryptocurrency symbol (e.g., BTC, ETH, SOL)\",\"type\":\"string\"}},\"required\":[\"symbol\"],\"type\":\"object\"}\n  Policies: L1 (No personalized investment advice)\n\n- OnChainHistoryTool: "
    ));
    assert!(text.contains(
        "\n  Policies: L1 (No personalized investment advice), L2 (Aggregated outputs only (no raw dumps)), L3 (No deanonymization / doxxing of wallets)\n\n- SentimentTool: "
    ));
    assert!(text.ends_with(
        "\n  Policies: L1 (No personalized investment advice), L2 (Aggregated outputs only (no raw dumps)), L3 (No deanonymization / doxxing of wallets), L4 (Source attribution & timestamp)\n\n"
    ));
    assert_eq!(text.matches("\n- ").count(), 4);
}

#[test]
fn registry_records_results() {
    let registry = registry();
    let t = Timestamp { secs_since_epoch: 0, nanos_since_epoch: 0 };
    let id = Uuid::from_bytes([4u8; 16]);
    let mut call = ToolCall {
        id,
        tool_name: "PriceFeedTool".to_string(),
        arguments: r#"{"symbol":"BTC"}"#.to_string(),
        timestamp: t,
        compliance_quote: None,
    };
    let result = registry.execute_tool_call(&call);
    assert!(result.success);
    assert_eq!(result.call_id, id);
    assert!(result.result.contains(r#""symbol":"BTC""#));
    assert!(result.error.is_none());
    assert!(!result.quote_verified);

    call.compliance_quote =
        Some(approval("PriceFeedTool", &["L1".to_string()], "q", r#"{"symbol":"BTC"}"#, true));
    let result = registry.execute_tool_call(&call);
    assert!(result.success);
    assert!(result.quote_verified);

    call.compliance_quote =
        Some(approval("PriceFeedTool", &["L1".to_string()], "q", r#"{"symbol":"BTC"}"#, false));
    let result = registry.execute_tool_call(&call);
    assert!(!result.success);
    assert_eq!(result.result, "");
    assert_eq!(result.error.as_deref(), Some("Tool use was rejected by compliance policy"));
    assert!(!result.quote_verified);

    call.compliance_quote = None;
    call.arguments = "{}".to_string();
    let result = registry.execute_tool_call(&call);
    assert!(!result.success);
    assert_eq!(result.error.as_deref(), Some("Missing symbol parameter"));

    call.tool_name = "NonexistentTool".to_string();
    let result = registry.execute_tool_call(&call);
    assert!(!result.success);
    assert_eq!(result.error.as_deref(), Some("Tool not found: NonexistentTool"));
    assert_eq!(result.call_id, id);
}
