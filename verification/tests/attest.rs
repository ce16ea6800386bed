use hypervisor::agent::quote_utils::{
    compliance_report, generate_compliance_quote, hash_compliance_data,
    verify_compliance_quote_dummy,
};
use hypervisor::attest::errors::{AttestationError, QuoteError};
use hypervisor::attest::provider::{select_provider, Provider};
use hypervisor::attest::types::{K256PkReport, Quote, QuoteBody, QuoteReport, RawReport};
use hypervisor::utils::attest::generate_raw_report_from_hash;
use hypervisor::utils::crypto::PublicKey;

fn put_le32(bytes: &mut Vec<u8>, at: usize, value: u32) {
    bytes[at..at + 4].copy_from_slice(&value.to_le_bytes());
}

/// A version 3 quote around `report_data`: header, enclave report, and a
/// signature section with empty authentication and certification data.
fn quote_v3(report_data: &[u8; 64]) -> Vec<u8> {
    let mut bytes = vec![0u8; 436 + 584];
    bytes[0] = 3;
    bytes[2] = 2;
    for (i, b) in bytes[48..368].iter_mut().enumerate() {
        *b = (i % 251) as u8;
    }
    bytes[368..432].copy_from_slice(report_data);
    put_le32(&mut bytes, 432, 584);
    bytes
}

/// A version 4 quote of a TDX 1.0 body around `report_data` and `rtmr3`.
fn quote_v4_tdx(report_data: &[u8; 64], rtmr3: &[u8; 48]) -> Vec<u8> {
    let mut bytes = vec![0u8; 636 + 134];
    bytes[0] = 4;
    bytes[2] = 2;
    put_le32(&mut bytes, 4, 0x81);
    bytes[520..568].copy_from_slice(rtmr3);
    bytes[568..632].copy_from_slice(report_data);
    put_le32(&mut bytes, 632, 134);
    bytes
}

/// A version 4 quote of an SGX body around `report_data`.
fn quote_v4_sgx(report_data: &[u8; 64]) -> Vec<u8> {
    let mut bytes = vec![0u8; 436 + 134];
    bytes[0] = 4;
    bytes[2] = 2;
    bytes[368..432].copy_from_slice(report_data);
    put_le32(&mut bytes, 432, 134);
    bytes
}

/// A version 5 quote with a body of type `body_type`.
fn quote_v5(body_type: u16, report_data: &[u8; 64], rtmr3: &[u8; 48]) -> Vec<u8> {
    let body_len = match body_type {
        1 => 384,
        2 => 584,
        _ => 648,
    };
    let mut bytes = vec![0u8; 54 + body_len + 4 + 134];
    put_le32(&mut bytes, 54 + body_len, 134);
    bytes[0] = 5;
    bytes[2] = 2;
    put_le32(&mut bytes, 4, 0x81);
    bytes[48..50].copy_from_slice(&body_type.to_le_bytes());
    put_le32(&mut bytes, 50, body_len as u32);
    if body_type == 1 {
        bytes[54 + 320..54 + 384].copy_from_slice(report_data);
    } else {
        bytes[54 + 472..54 + 520].copy_from_slice(rtmr3);
        bytes[54 + 520..54 + 584].copy_from_slice(report_data);
    }
    bytes
}

fn sample_report_data() -> [u8; 64] {
    core::array::from_fn(|i| (200 - i) as u8)
}

fn sample_rtmr3() -> [u8; 48] {
    core::array::from_fn(|i| (i * 3 + 1) as u8)
}

#[test]
fn raw_report_keeps_its_bytes() {
    let raw = sample_report_data();
    assert_eq!(RawReport::new(raw).to_bytes(), raw);
}

#[test]
fn version_3_quote_is_read() {
    let data = sample_report_data();
    let bytes = quote_v3(&data);
    assert!(Quote::well_framed(&bytes));
    let quote = Quote::from_bytes(&bytes).unwrap();
    assert_eq!(quote.to_bytes(), bytes);
    assert_eq!(quote.report_data(), data);
    assert!(matches!(quote.quote_report(), QuoteReport::V3(_)));
    assert_eq!(quote.quote_report().rtmr3(), [0u8; 48]);
}

#[test]
fn version_4_quotes_are_read() {
    let data = sample_report_data();
    let rtmr3 = sample_rtmr3();
    let bytes = quote_v4_tdx(&data, &rtmr3);
    assert!(Quote::well_framed(&bytes));
    let quote = Quote::from_bytes(&bytes).unwrap();
    assert_eq!(quote.report_data(), data);
    assert_eq!(quote.quote_report().rtmr3(), rtmr3);
    assert!(matches!(quote.quote_report(), QuoteReport::V4(QuoteBody::TD10QuoteBody(_))));
    assert_eq!(quote.to_bytes(), bytes);

    let bytes = quote_v4_sgx(&data);
    assert!(Quote::well_framed(&bytes));
    let quote = Quote::from_bytes(&bytes).unwrap();
    assert_eq!(quote.report_data(), data);
    assert_eq!(quote.quote_report().rtmr3(), [0u8; 48]);
    assert!(matches!(quote.quote_report(), QuoteReport::V4(QuoteBody::SGXQuoteBody(_))));
}

#[test]
fn version_5_quotes_are_read() {
    let data = sample_report_data();
    let rtmr3 = sample_rtmr3();
    for body_type in [1u16, 2, 3] {
        let bytes = quote_v5(body_type, &data, &rtmr3);
        assert!(Quote::well_framed(&bytes));
        let quote = Quote::from_bytes(&bytes).unwrap();
        assert_eq!(quote.report_data(), data);
        assert_eq!(quote.to_bytes(), bytes);
        match (body_type, quote.quote_report()) {
            (1, QuoteReport::V5(QuoteBody::SGXQuoteBody(_))) => {
                assert_eq!(quote.quote_report().rtmr3(), [0u8; 48])
            }
            (2, QuoteReport::V5(QuoteBody::TD10QuoteBody(_))) => {
                assert_eq!(quote.quote_report().rtmr3(), rtmr3)
            }
            (3, QuoteReport::V5(QuoteBody::TD15QuoteBody(_))) => {
                assert_eq!(quote.quote_report().rtmr3(), rtmr3)
            }
            _ => panic!("the body is of the announced type"),
        }
    }
}

#[test]
fn short_and_unknown_quotes_are_refused() {
    for len in [0usize, 1, 47] {
        let bytes = vec![4u8; len];
        assert!(Quote::well_framed(&bytes));
        match Quote::from_bytes(&bytes) {
            Err(QuoteError::InvalidHeaderSize(n)) => assert_eq!(n, len),
            _ => panic!("a short quote has no header"),
        }
    }
    let mut bytes = vec![0u8; 48];
    bytes[0] = 6;
    bytes[1] = 1;
    assert!(Quote::well_framed(&bytes));
    match Quote::from_bytes(&bytes) {
        Err(QuoteError::UnknownQuote(v)) => assert_eq!(v, 262),
        _ => panic!("version 262 is unknown"),
    }
    assert_eq!(QuoteError::InvalidHeaderSize(47).message(), "invalid header size 47");
    assert_eq!(QuoteError::UnknownQuote(262).message(), "unknown version 262");
    assert_eq!(QuoteError::ReportData("x".to_string()).message(), "report data x");
}

#[test]
fn truncated_quotes_are_not_well_framed() {
    let data = sample_report_data();
    let rtmr3 = sample_rtmr3();
    let whole = [
        quote_v3(&data),
        quote_v4_tdx(&data, &rtmr3),
        quote_v4_sgx(&data),
        quote_v5(3, &data, &rtmr3),
    ];
    for bytes in whole.iter() {
        assert!(Quote::well_framed(bytes));
        for cut in [48usize, 60, 400, bytes.len() - 5, bytes.len() - 1] {
            assert!(!Quote::well_framed(&bytes[..cut]), "cut at {}", cut);
        }
    }
    // a version 4 header with an unknown TEE type
    let mut bytes = quote_v4_tdx(&data, &rtmr3);
    put_le32(&mut bytes, 4, 0x82);
    assert!(!Quote::well_framed(&bytes));
    // a version 5 quote with an unknown body type
    let mut bytes = quote_v5(3, &data, &rtmr3);
    bytes[48] = 4;
    assert!(!Quote::well_framed(&bytes));
    // a signature section that names more bytes than there are
    let mut bytes = quote_v3(&data);
    put_le32(&mut bytes, 432, 585);
    assert!(!Quote::well_framed(&bytes));
    // certification data that names more bytes than there are
    let mut bytes = quote_v4_tdx(&data, &rtmr3);
    let at = bytes.len() - 4;
    put_le32(&mut bytes, at, 1);
    assert!(!Quote::well_framed(&bytes));
    // trailing bytes behind a whole quote do no harm
    let mut bytes = quote_v3(&data);
    bytes.extend_from_slice(&[1, 2, 3]);
    assert!(Quote::well_framed(&bytes));
    assert_eq!(Quote::from_bytes(&bytes).unwrap().report_data(), data);
}

#[test]
fn provider_selection() {
    assert!(matches!(select_provider(true, true), Ok(Provider::Coco)));
    assert!(matches!(select_provider(true, false), Ok(Provider::Coco)));
    assert!(matches!(select_provider(false, true), Ok(Provider::Ioctl)));
    assert!(matches!(select_provider(false, false), Err(AttestationError::NoProviderAvailable)));
    assert_eq!(
        AttestationError::NoProviderAvailable.message(),
        "no provider available, should run inside guest vm"
    );
    assert_eq!(AttestationError::Ioctl("feature isn't enabled".to_string()).message(), "ioctl feature isn't enabled");
    assert_eq!(AttestationError::Coco("no device".to_string()).message(), "coco no device");
    assert_eq!(
        AttestationError::Quote(QuoteError::UnknownQuote(9)).message(),
        "quote unknown version 9"
    );
}

#[test]
fn quote_round_trip_carries_the_hash() {
    let h: [u8; 32] = core::array::from_fn(|i| (i * 7) as u8);
    let report = generate_raw_report_from_hash(h).to_bytes();
    for bytes in [quote_v3(&report), quote_v4_tdx(&report, &[0u8; 48]), quote_v5(3, &report, &[0u8; 48])] {
        let parsed = Quote::from_bytes(&Quote::from_bytes(&bytes).unwrap().to_bytes()).unwrap();
        assert_eq!(&parsed.report_data()[..32], &h[..]);
        assert_eq!(&parsed.report_data()[32..], &[0u8; 32][..]);
    }
}

#[test]
fn compliance_quote_is_verified_structurally() {
    let ids = ["L1".to_string()];
    let query = "What is the price of BTC?";
    let arguments = r#"{"symbol": "BTC"}"#;
    let report = compliance_report("PriceFeedTool", true, &ids, query, arguments).to_bytes();
    let quote_bytes = quote_v4_tdx(&report, &sample_rtmr3());
    let quote =
        generate_compliance_quote("PriceFeedTool", true, &ids, query, arguments, quote_bytes.clone());
    assert_eq!(quote.tool_name, "PriceFeedTool");
    assert!(quote.compliant);
    assert_eq!(quote.quote_bytes, quote_bytes);
    assert_eq!(quote.compliance_hash, hash_compliance_data("PriceFeedTool", true, &ids, query, arguments));
    assert!(quote.timestamp.secs_since_epoch > 1_600_000_000);
    assert!(quote.timestamp.nanos_since_epoch < 1_000_000_000);
    assert_eq!(verify_compliance_quote_dummy(&quote, "PriceFeedTool").unwrap(), true);

    // another tool
    assert_eq!(verify_compliance_quote_dummy(&quote, "SentimentTool").unwrap(), false);
    // no quote bytes
    let mut empty = quote.clone();
    empty.quote_bytes.clear();
    assert_eq!(verify_compliance_quote_dummy(&empty, "PriceFeedTool").unwrap(), false);
    // bytes that do not parse
    let mut short = quote.clone();
    short.quote_bytes.truncate(100);
    assert_eq!(verify_compliance_quote_dummy(&short, "PriceFeedTool").unwrap(), false);
    let mut unknown = quote.clone();
    unknown.quote_bytes[0] = 9;
    assert_eq!(verify_compliance_quote_dummy(&unknown, "PriceFeedTool").unwrap(), false);
    // a hash that the quote does not carry
    let mut other = quote.clone();
    other.compliance_hash[31] ^= 1;
    assert_eq!(verify_compliance_quote_dummy(&other, "PriceFeedTool").unwrap(), false);
    // only the first 32 bytes of the report data count
    let mut tail = quote.clone();
    tail.quote_bytes[568 + 40] = 0xff;
    assert_eq!(verify_compliance_quote_dummy(&tail, "PriceFeedTool").unwrap(), true);
    // a refusal still verifies; it is the tools that turn it down
    let refusal_report = compliance_report("PriceFeedTool", false, &ids, query, arguments).to_bytes();
    let refusal = generate_compliance_quote(
        "PriceFeedTool",
        false,
        &ids,
        query,
        arguments,
        quote_v3(&refusal_report),
    );
    assert!(!refusal.compliant);
    assert_eq!(verify_compliance_quote_dummy(&refusal, "PriceFeedTool").unwrap(), true);
}

#[test]
fn key_report_round_trip() {
    let encoded =
        const_hex::decode("02C6047F9441ED7D6D3045406E95C07CD85C778E4B8CEF3CA7ABAC09B95C709EE5").unwrap();
    let pk = PublicKey::from_sec1_bytes(&encoded).unwrap();
    let report = K256PkReport::new(pk);
    assert_eq!(report.pubkey().as_bytes().as_slice(), encoded.as_slice());
    let raw = report.to_raw().to_bytes();
    assert_eq!(&raw[..33], encoded.as_slice());
    assert_eq!(&raw[33..], &[0u8; 31][..]);
    assert_eq!(
        report.describe(),
        "report: pk 02C6047F9441ED7D6D3045406E95C07CD85C778E4B8CEF3CA7ABAC09B95C709EE5"
    );
    let quote = Quote::from_bytes(&quote_v3(&raw)).unwrap();
    let read = quote.k256_pk_report().unwrap();
    assert!(read.pubkey().same_as(&pk));

    let quote = Quote::from_bytes(&quote_v3(&[0u8; 64])).unwrap();
    match quote.k256_pk_report() {
        Err(QuoteError::ReportData(message)) => assert!(message.starts_with("invalid secp pk ")),
        _ => panic!("zero bytes are no key"),
    }
}

#[test]
fn test_generate_quote() {
    let ids = ["L1".to_string()];
    let report = compliance_report("PriceFeedTool", true, &ids, "What is the price of BTC?", r#"{"symbol": "BTC"}"#);
    // what a provider hands out for the report
    let quote_bytes = quote_v4_tdx(&report.to_bytes(), &sample_rtmr3());
    let quote = generate_compliance_quote(
        "PriceFeedTool",
        true,
        &["L1".to_string()],
        "What is the price of BTC?",
        r#"{"symbol": "BTC"}"#,
        quote_bytes,
    );

    assert_eq!(quote.tool_name, "PriceFeedTool");
    assert_eq!(quote.compliant, true);
    assert!(!quote.quote_bytes.is_empty());
}
