//! The compliance hash and the compliance quote.

use vstd::prelude::*;
use crate::agent::types::{ComplianceQuote, ComplianceQuoteView, Timestamp};
use crate::attest::types::{body_report_data, quote_frame_ok, quote_layout, Quote, RawReport};
use crate::sorting::{
    lemma_sorted_texts_of_permutation, lemma_text_order_total, sort_strings, sorted_texts,
    text_order,
};
use crate::text::{absorb_str, str_eq, utf8};
use crate::utils::attest::{generate_raw_report_from_hash, report_of_digest};
use crate::utils::hasher::{blake3_digest, blake3_hash, flag_byte};

verus! {

/// The first `n` policy IDs, as bytes, one after the other.
pub open spec fn ids_preimage(ids: Seq<Seq<char>>, n: int) -> Seq<u8>
    decreases n,
{
    if n <= 0 {
        Seq::<u8>::empty()
    } else {
        ids_preimage(ids, n - 1) + utf8(ids[n - 1])
    }
}

/// The compliance hash input: the version tag, the tool name, the byte of
/// the outcome (1 for compliant), the policy IDs in ascending order, the
/// user query, the arguments.
pub open spec fn compliance_preimage(
    tool_name: Seq<char>,
    compliant: bool,
    policy_ids: Seq<Seq<char>>,
    user_query: Seq<char>,
    arguments: Seq<char>,
) -> Seq<u8> {
    utf8("COMPLIANCE_V1"@) + utf8(tool_name) + seq![flag_byte(compliant)] + ids_preimage(
        sorted_texts(policy_ids),
        policy_ids.len() as int,
    ) + utf8(user_query) + utf8(arguments)
}

/// The compliance hash of a gating decision.
pub open spec fn compliance_digest(
    tool_name: Seq<char>,
    compliant: bool,
    policy_ids: Seq<Seq<char>>,
    user_query: Seq<char>,
    arguments: Seq<char>,
) -> Seq<u8> {
    blake3_digest(compliance_preimage(tool_name, compliant, policy_ids, user_query, arguments))
}

/// The compliance hash does not depend on the order in which the policy IDs
/// are given: lists that hold the same IDs, each as often, hash alike.
pub proof fn lemma_compliance_hash_ignores_order(
    tool_name: Seq<char>,
    compliant: bool,
    ids_a: Seq<Seq<char>>,
    ids_b: Seq<Seq<char>>,
    user_query: Seq<char>,
    arguments: Seq<char>,
)
    requires
        ids_a.to_multiset() == ids_b.to_multiset(),
    ensures
        compliance_digest(tool_name, compliant, ids_a, user_query, arguments) == compliance_digest(
            tool_name,
            compliant,
            ids_b,
            user_query,
            arguments,
        ),
{
    lemma_sorted_texts_of_permutation(ids_a, ids_b);
    ids_a.to_multiset_ensures();
    ids_b.to_multiset_ensures();
}

/// Hash the compliance check data: a deterministic hash that stands for the
/// gating decision and goes into the report data of the quote.
pub fn hash_compliance_data(
    tool_name: &str,
    compliant: bool,
    policy_ids: &[String],
    user_query: &str,
    arguments: &str,
) -> (digest: [u8; 32])
    ensures
        digest@ == compliance_digest(
            tool_name@,
            compliant,
            policy_ids.deep_view(),
            user_query@,
            arguments@,
        ),
{
    let mut buf: Vec<u8> = Vec::new();
    absorb_str(&mut buf, "COMPLIANCE_V1");
    absorb_str(&mut buf, tool_name);
    buf.push(if compliant { 1u8 } else { 0u8 });

    // Policy IDs, sorted for determinism
    let ghost ids = policy_ids.deep_view();
    let mut sorted_policies: Vec<String> = Vec::new();
    let mut k: usize = 0;
    while k < policy_ids.len()
        invariant
            k <= policy_ids.len(),
            ids == policy_ids.deep_view(),
            sorted_policies.deep_view() == ids.take(k as int),
        decreases policy_ids.len() - k,
    {
        let ghost before = sorted_policies.deep_view();
        let id = policy_ids[k].clone();
        assert(ids[k as int] == id@);
        sorted_policies.push(id);
        assert(sorted_policies.deep_view() =~= before.push(id@));
        k += 1;
        assert(sorted_policies.deep_view() =~= ids.take(k as int));
    }
    assert(ids.take(k as int) =~= ids);
    sort_strings(&mut sorted_policies);
    let ghost sorted = sorted_policies.deep_view();
    proof {
        lemma_text_order_total();
        ids.lemma_sort_by_ensures(text_order());
        ids.to_multiset_ensures();
        sorted.to_multiset_ensures();
    }
    assert(sorted.len() == ids.len());

    let ghost start = buf@;
    let mut i: usize = 0;
    assert(buf@ =~= start + ids_preimage(sorted, 0));
    while i < sorted_policies.len()
        invariant
            i <= sorted_policies.len(),
            sorted == sorted_policies.deep_view(),
            buf@ == start + ids_preimage(sorted, i as int),
        decreases sorted_policies.len() - i,
    {
        assert(sorted[i as int] == sorted_policies[i as int]@);
        absorb_str(&mut buf, sorted_policies[i].as_str());
        i += 1;
        assert(buf@ =~= start + ids_preimage(sorted, i as int));
    }

    absorb_str(&mut buf, user_query);
    absorb_str(&mut buf, arguments);
    assert(buf@ =~= compliance_preimage(tool_name@, compliant, ids, user_query@, arguments@));
    blake3_hash(buf.as_slice())
}

/// The report that binds a gating decision: its compliance hash in the first
/// 32 bytes, zero in the rest.
pub fn compliance_report(
    tool_name: &str,
    compliant: bool,
    policy_ids: &[String],
    user_query: &str,
    arguments: &str,
) -> (report: RawReport)
    ensures
        report@ == report_of_digest(
            compliance_digest(
                tool_name@,
                compliant,
                policy_ids.deep_view(),
                user_query@,
                arguments@,
            ),
        ),
{
    let compliance_hash = hash_compliance_data(
        tool_name,
        compliant,
        policy_ids,
        user_query,
        arguments,
    );
    generate_raw_report_from_hash(compliance_hash)
}

/// Packages the compliance quote of a gating decision around the bytes of
/// the attestation quote that was obtained for `compliance_report` of the
/// same decision.
pub fn generate_compliance_quote(
    tool_name: &str,
    compliant: bool,
    policy_ids: &[String],
    user_query: &str,
    arguments: &str,
    quote_bytes: Vec<u8>,
) -> (quote: ComplianceQuote)
    ensures
        quote.tool_name@ == tool_name@,
        quote.compliant == compliant,
        quote.quote_bytes@ == quote_bytes@,
        quote.compliance_hash@ == compliance_digest(
            tool_name@,
            compliant,
            policy_ids.deep_view(),
            user_query@,
            arguments@,
        ),
{
    let compliance_hash = hash_compliance_data(
        tool_name,
        compliant,
        policy_ids,
        user_query,
        arguments,
    );
    ComplianceQuote {
        tool_name: tool_name.to_owned(),
        compliant,
        quote_bytes,
        compliance_hash,
        timestamp: Timestamp::now(),
    }
}

/// A compliance quote passes the structural check for a tool: it is for
/// that tool, holds quote bytes that parse, and the first 32 bytes of the
/// report data of the parsed quote are its compliance hash.
pub open spec fn quote_verifies(quote: ComplianceQuoteView, expected_tool_name: Seq<char>) -> bool {
    &&& quote.tool_name == expected_tool_name
    &&& quote.quote_bytes.len() > 0
    &&& quote_frame_ok(quote.quote_bytes)
    &&& quote_layout(quote.quote_bytes) is Some
    &&& body_report_data(quote.quote_bytes, quote_layout(quote.quote_bytes)->0).subrange(0, 32)
        == quote.compliance_hash
}

/// Verify a compliance quote, structurally: tool name, presence of quote
/// bytes, that they parse, and that the report data carries the compliance
/// hash. The signature chain of the quote is not verified.
pub fn verify_compliance_quote_dummy(quote: &ComplianceQuote, expected_tool_name: &str) -> (r:
    Result<bool, String>)
    ensures
        r is Ok,
        r->Ok_0 == quote_verifies(quote.deep_view(), expected_tool_name@),
{
    if !str_eq(quote.tool_name.as_str(), expected_tool_name) {
        return Ok(false);
    }
    if quote.quote_bytes.len() == 0 {
        return Ok(false);
    }
    if !Quote::well_framed(quote.quote_bytes.as_slice()) {
        return Ok(false);
    }
    match Quote::from_bytes(quote.quote_bytes.as_slice()) {
        Ok(parsed_quote) => {
            let report_data = parsed_quote.report_data();
            let ghost bytes = quote.quote_bytes@;
            assert(report_data@ == body_report_data(bytes, quote_layout(bytes)->0));
            let mut i: usize = 0;
            while i < 32
                invariant
                    i <= 32,
                    bytes == quote.quote_bytes@,
                    quote.tool_name@ == expected_tool_name@,
                    bytes.len() > 0,
                    quote_frame_ok(bytes),
                    quote_layout(bytes) is Some,
                    report_data@ == body_report_data(bytes, quote_layout(bytes)->0),
                    forall|j: int| 0 <= j < i ==> report_data@[j] == quote.compliance_hash@[j],
                decreases 32 - i,
            {
                if report_data[i] != quote.compliance_hash[i] {
                    assert(report_data@.subrange(0, 32)[i as int] == report_data@[i as int]);
                    return Ok(false);
                }
                i += 1;
            }
            assert(report_data@.subrange(0, 32) =~= quote.compliance_hash@);
            Ok(true)
        },
        Err(_) => Ok(false),
    }
}

} // verus!
