//! Quotes, their layout, and the reports they carry.

use vstd::prelude::*;
use vstd::string::StringExecFns;
use crate::attest::errors::QuoteError;
use crate::utils::crypto::{pk_to_hex, sec1_complaint, sec1_compressed, PublicKey};
use crate::utils::hexcodec::hex_upper;

verus! {

/// Bytes that a quote header holds.
pub const HEADER_LEN: usize = 48;

/// Bytes that an SGX enclave report holds.
pub const ENCLAVE_REPORT_LEN: usize = 384;

/// Bytes that a TDX 1.0 report body holds.
pub const TD10_REPORT_LEN: usize = 584;

/// Bytes that a TDX 1.5 report body holds.
pub const TD15_REPORT_LEN: usize = 648;

/// The TEE type of an SGX quote.
pub const SGX_TEE_TYPE: u64 = 0x00000000;

/// The TEE type of a TDX quote.
pub const TDX_TEE_TYPE: u64 = 0x00000081;

/// What the logic reads of an SGX enclave report.
#[derive(Clone, Copy, Debug)]
pub struct EnclaveReport {
    pub report_data: [u8; 64],
}

/// What the logic reads of a TDX report body.
#[derive(Clone, Copy, Debug)]
pub struct TdReportBody {
    pub rtmr3: [u8; 48],
    pub report_data: [u8; 64],
}

/// The body of a version 4 or version 5 quote.
#[derive(Clone, Copy, Debug)]
pub enum QuoteBody {
    SGXQuoteBody(EnclaveReport),
    TD10QuoteBody(TdReportBody),
    TD15QuoteBody(TdReportBody),
}

/// A parsed quote, by version.
#[derive(Clone, Copy, Debug)]
pub enum QuoteReport {
    V3(EnclaveReport),
    V4(QuoteBody),
    V5(QuoteBody),
}

/// The kinds of report body.
pub enum BodyKind {
    Sgx,
    Td10,
    Td15,
}

/// Where the report body of a quote lies, and of which kind it is.
pub struct QuoteLayout {
    pub version: int,
    pub kind: BodyKind,
    pub body_at: int,
}

/// The unsigned 16-bit number at `at`, low byte first.
pub open spec fn le16(b: Seq<u8>, at: int) -> int {
    b[at] as int + 256 * (b[at + 1] as int)
}

/// The unsigned 32-bit number at `at`, low byte first.
pub open spec fn le32(b: Seq<u8>, at: int) -> int {
    b[at] as int + 256 * (b[at + 1] as int) + 65536 * (b[at + 2] as int) + 16777216 * (b[at
        + 3] as int)
}

/// The version that a quote header names.
pub open spec fn header_version(b: Seq<u8>) -> int {
    le16(b, 0)
}

/// Certification data lies whole within `b[at..end]`: a type of two bytes,
/// a size of four, and as many bytes as the size says.
pub open spec fn cert_data_fits(b: Seq<u8>, at: int, end: int) -> bool {
    at + 6 <= end && at + 6 + le32(b, at + 2) <= end
}

/// A version 3 quote is whole: header, enclave report, and a signature
/// section of the length it names, which holds two signatures, the
/// attestation key, the QE report, QE authentication data and certification
/// data.
pub open spec fn v3_frame_ok(b: Seq<u8>) -> bool {
    let end = 436 + le32(b, 432);
    &&& b.len() >= 436
    &&& end <= b.len()
    &&& 1014 <= end
    &&& 1014 + le16(b, 1012) <= end
    &&& cert_data_fits(b, 1014 + le16(b, 1012), end)
}

/// The kind of body that a version 4 header announces by its TEE type.
pub open spec fn v4_kind(b: Seq<u8>) -> Option<BodyKind> {
    if le32(b, 4) == SGX_TEE_TYPE {
        Some(BodyKind::Sgx)
    } else if le32(b, 4) == TDX_TEE_TYPE {
        Some(BodyKind::Td10)
    } else {
        None
    }
}

/// Bytes that a body of a kind holds.
pub open spec fn body_len(kind: BodyKind) -> int {
    match kind {
        BodyKind::Sgx => 384,
        BodyKind::Td10 => 584,
        BodyKind::Td15 => 648,
    }
}

/// A version 4 quote is whole: header with a known TEE type, the body of
/// that type, and a signature section of the length it names, which holds a
/// signature, the attestation key and certification data.
pub open spec fn v4_frame_ok(b: Seq<u8>) -> bool {
    &&& b.len() >= 48
    &&& v4_kind(b) is Some
    &&& {
        let sig_at = 48 + body_len(v4_kind(b)->0) + 4;
        let end = sig_at + le32(b, sig_at - 4);
        &&& sig_at <= b.len()
        &&& end <= b.len()
        &&& cert_data_fits(b, sig_at + 128, end)
    }
}

/// The kind of body that a version 5 quote announces by its body type.
pub open spec fn v5_kind(b: Seq<u8>) -> Option<BodyKind> {
    if le16(b, 48) == 1 {
        Some(BodyKind::Sgx)
    } else if le16(b, 48) == 2 {
        Some(BodyKind::Td10)
    } else if le16(b, 48) == 3 {
        Some(BodyKind::Td15)
    } else {
        None
    }
}

/// A version 5 quote is whole: header, a body type of two bytes that is
/// known, a body size of four bytes, the body of that type, and a signature
/// section as in version 4.
pub open spec fn v5_frame_ok(b: Seq<u8>) -> bool {
    &&& b.len() >= 54
    &&& v5_kind(b) is Some
    &&& {
        let sig_at = 54 + body_len(v5_kind(b)->0) + 4;
        let end = sig_at + le32(b, sig_at - 4);
        &&& sig_at <= b.len()
        &&& end <= b.len()
        &&& cert_data_fits(b, sig_at + 128, end)
    }
}

/// The bytes can be parsed: where they hold a header of version 3, 4 or 5,
/// the quote of that version is whole.
pub open spec fn quote_frame_ok(b: Seq<u8>) -> bool {
    b.len() >= 48 ==> {
        &&& header_version(b) == 3 ==> v3_frame_ok(b)
        &&& header_version(b) == 4 ==> v4_frame_ok(b)
        &&& header_version(b) == 5 ==> v5_frame_ok(b)
    }
}

/// Where the report body lies in a quote that can be parsed, by version.
pub open spec fn quote_layout(b: Seq<u8>) -> Option<QuoteLayout> {
    if b.len() < 48 {
        None
    } else if header_version(b) == 3 {
        Some(QuoteLayout { version: 3, kind: BodyKind::Sgx, body_at: 48 })
    } else if header_version(b) == 4 && v4_kind(b) is Some {
        Some(QuoteLayout { version: 4, kind: v4_kind(b)->0, body_at: 48 })
    } else if header_version(b) == 5 && v5_kind(b) is Some {
        Some(QuoteLayout { version: 5, kind: v5_kind(b)->0, body_at: 54 })
    } else {
        None
    }
}

/// The 64 bytes of report data in a body: at offset 320 of an enclave
/// report, at offset 520 of a TDX report body.
pub open spec fn body_report_data(b: Seq<u8>, layout: QuoteLayout) -> Seq<u8> {
    match layout.kind {
        BodyKind::Sgx => b.subrange(layout.body_at + 320, layout.body_at + 384),
        _ => b.subrange(layout.body_at + 520, layout.body_at + 584),
    }
}

/// The 48 bytes of RTMR3 in a body: at offset 472 of a TDX report body,
/// zero for an enclave report, which has none.
pub open spec fn body_rtmr3(b: Seq<u8>, layout: QuoteLayout) -> Seq<u8> {
    match layout.kind {
        BodyKind::Sgx => Seq::new(48, |i: int| 0u8),
        _ => b.subrange(layout.body_at + 472, layout.body_at + 520),
    }
}

impl EnclaveReport {
    /// The report holds the report data that lies in `b` under `layout`.
    pub open spec fn reads(self, b: Seq<u8>, layout: QuoteLayout) -> bool {
        layout.kind is Sgx && self.report_data@ == body_report_data(b, layout)
    }
}

impl TdReportBody {
    /// The body holds what lies in `b` under `layout`.
    pub open spec fn reads(self, b: Seq<u8>, layout: QuoteLayout) -> bool {
        &&& !(layout.kind is Sgx)
        &&& self.report_data@ == body_report_data(b, layout)
        &&& self.rtmr3@ == body_rtmr3(b, layout)
    }
}

impl QuoteBody {
    /// The body is of the kind that `layout` names and holds what lies in `b`.
    pub open spec fn reads(self, b: Seq<u8>, layout: QuoteLayout) -> bool {
        match self {
            QuoteBody::SGXQuoteBody(r) => r.reads(b, layout),
            QuoteBody::TD10QuoteBody(r) => layout.kind is Td10 && r.reads(b, layout),
            QuoteBody::TD15QuoteBody(r) => layout.kind is Td15 && r.reads(b, layout),
        }
    }

    /// The report data of the body.
    pub open spec fn spec_report_data(self) -> Seq<u8> {
        match self {
            QuoteBody::SGXQuoteBody(r) => r.report_data@,
            QuoteBody::TD10QuoteBody(r) => r.report_data@,
            QuoteBody::TD15QuoteBody(r) => r.report_data@,
        }
    }

    /// RTMR3 of the body: zero for an enclave report.
    pub open spec fn spec_rtmr3(self) -> Seq<u8> {
        match self {
            QuoteBody::SGXQuoteBody(_) => Seq::new(48, |i: int| 0u8),
            QuoteBody::TD10QuoteBody(r) => r.rtmr3@,
            QuoteBody::TD15QuoteBody(r) => r.rtmr3@,
        }
    }
}

impl QuoteReport {
    /// The report is of the version that `layout` names and holds what lies
    /// in `b`.
    pub open spec fn reads(self, b: Seq<u8>, layout: QuoteLayout) -> bool {
        match self {
            QuoteReport::V3(r) => layout.version == 3 && r.reads(b, layout),
            QuoteReport::V4(body) => layout.version == 4 && body.reads(b, layout),
            QuoteReport::V5(body) => layout.version == 5 && body.reads(b, layout),
        }
    }

    /// The report data of the quote.
    pub open spec fn spec_report_data(self) -> Seq<u8> {
        match self {
            QuoteReport::V3(r) => r.report_data@,
            QuoteReport::V4(body) => body.spec_report_data(),
            QuoteReport::V5(body) => body.spec_report_data(),
        }
    }

    /// RTMR3 of the quote: zero for a version 3 quote and for an SGX body.
    pub open spec fn spec_rtmr3(self) -> Seq<u8> {
        match self {
            QuoteReport::V3(_) => Seq::new(48, |i: int| 0u8),
            QuoteReport::V4(body) => body.spec_rtmr3(),
            QuoteReport::V5(body) => body.spec_rtmr3(),
        }
    }

    /// RTMR3 of the quote: zero for a version 3 quote and for an SGX body.
    pub fn rtmr3(&self) -> (value: [u8; 48])
        ensures
            value@ == self.spec_rtmr3(),
    {
        let zero = [0u8; 48];
        assert(zero@ =~= Seq::new(48, |i: int| 0u8));
        match self {
            QuoteReport::V3(_) => zero,
            QuoteReport::V4(body) | QuoteReport::V5(body) => match body {
                QuoteBody::SGXQuoteBody(_) => zero,
                QuoteBody::TD10QuoteBody(report) => report.rtmr3,
                QuoteBody::TD15QuoteBody(report) => report.rtmr3,
            },
        }
    }
}

/// The unsigned 16-bit number at `at`, low byte first.
fn read_le16(bytes: &[u8], at: usize) -> (value: u64)
    requires
        at + 2 <= bytes.len(),
    ensures
        value == le16(bytes@, at as int),
        value < 65536,
{
    bytes[at] as u64 + 256 * (bytes[at + 1] as u64)
}

/// The unsigned 32-bit number at `at`, low byte first.
fn read_le32(bytes: &[u8], at: usize) -> (value: u64)
    requires
        at + 4 <= bytes.len(),
    ensures
        value == le32(bytes@, at as int),
        value < 4294967296,
{
    bytes[at] as u64 + 256 * (bytes[at + 1] as u64) + 65536 * (bytes[at + 2] as u64) + 16777216 * (
    bytes[at + 3] as u64)
}

/// Whether certification data lies whole within `bytes[at..end]`.
fn cert_data_fits_in(bytes: &[u8], at: u64, end: u64) -> (fits: bool)
    requires
        end <= bytes.len(),
        at <= 0xffff_ffff_ffff,
    ensures
        fits == cert_data_fits(bytes@, at as int, end as int),
{
    if at + 6 > end {
        return false;
    }
    let size = read_le32(bytes, (at + 2) as usize);
    at + 6 + size <= end
}

/// Whether a version 3 quote is whole.
fn v3_frame_check(bytes: &[u8]) -> (ok: bool)
    ensures
        ok == v3_frame_ok(bytes@),
{
    if bytes.len() < 436 {
        return false;
    }
    let len = bytes.len() as u64;
    let end = 436 + read_le32(bytes, 432);
    if end > len || end < 1014 {
        return false;
    }
    let auth = read_le16(bytes, 1012);
    if 1014 + auth > end {
        return false;
    }
    cert_data_fits_in(bytes, 1014 + auth, end)
}

/// Whether a version 4 quote is whole.
fn v4_frame_check(bytes: &[u8]) -> (ok: bool)
    ensures
        ok == v4_frame_ok(bytes@),
{
    if bytes.len() < 48 {
        return false;
    }
    let len = bytes.len() as u64;
    let tee_type = read_le32(bytes, 4);
    let body: u64 = if tee_type == SGX_TEE_TYPE {
        384
    } else if tee_type == TDX_TEE_TYPE {
        584
    } else {
        return false;
    };
    let sig_at = 48 + body + 4;
    if sig_at > len {
        return false;
    }
    let end = sig_at + read_le32(bytes, (sig_at - 4) as usize);
    if end > len {
        return false;
    }
    cert_data_fits_in(bytes, sig_at + 128, end)
}

/// Whether a version 5 quote is whole.
fn v5_frame_check(bytes: &[u8]) -> (ok: bool)
    ensures
        ok == v5_frame_ok(bytes@),
{
    if bytes.len() < 54 {
        return false;
    }
    let len = bytes.len() as u64;
    let body_type = read_le16(bytes, 48);
    let body: u64 = if body_type == 1 {
        384
    } else if body_type == 2 {
        584
    } else if body_type == 3 {
        648
    } else {
        return false;
    };
    let sig_at = 54 + body + 4;
    if sig_at > len {
        return false;
    }
    let end = sig_at + read_le32(bytes, (sig_at - 4) as usize);
    if end > len {
        return false;
    }
    cert_data_fits_in(bytes, sig_at + 128, end)
}

/// The 64 bytes of `bytes` from `at` on.
fn take64(bytes: &[u8], at: usize) -> (out: [u8; 64])
    requires
        at + 64 <= bytes.len(),
    ensures
        out@ == bytes@.subrange(at as int, at + 64),
{
    let mut out = [0u8; 64];
    let mut i: usize = 0;
    while i < 64
        invariant
            i <= 64,
            at + 64 <= bytes.len(),
            forall|j: int| 0 <= j < i ==> out@[j] == bytes@[at + j],
        decreases 64 - i,
    {
        out[i] = bytes[at + i];
        i += 1;
    }
    assert(out@ =~= bytes@.subrange(at as int, at + 64));
    out
}

/// The 48 bytes of `bytes` from `at` on.
fn take48(bytes: &[u8], at: usize) -> (out: [u8; 48])
    requires
        at + 48 <= bytes.len(),
    ensures
        out@ == bytes@.subrange(at as int, at + 48),
{
    let mut out = [0u8; 48];
    let mut i: usize = 0;
    while i < 48
        invariant
            i <= 48,
            at + 48 <= bytes.len(),
            forall|j: int| 0 <= j < i ==> out@[j] == bytes@[at + j],
        decreases 48 - i,
    {
        out[i] = bytes[at + i];
        i += 1;
    }
    assert(out@ =~= bytes@.subrange(at as int, at + 48));
    out
}

/// Calls `dcap_rs::types::quotes::version_3::QuoteV3::from_bytes` and keeps
/// the report data of the enclave report. Trusted: on a whole version 3
/// quote the call returns, and the report data is the 64 bytes at offset 320
/// of the enclave report, which follows the 48-byte header.
#[verifier::external_body]
fn dcap_parse_v3(bytes: &[u8]) -> (report: EnclaveReport)
    requires
        v3_frame_ok(bytes@),
    ensures
        report.report_data@ == bytes@.subrange(368, 432),
{
    let quote = dcap_rs::types::quotes::version_3::QuoteV3::from_bytes(bytes);
    EnclaveReport { report_data: quote.isv_enclave_report.report_data }
}

/// Calls `dcap_rs::types::quotes::version_4::QuoteV4::from_bytes` and keeps
/// what the logic reads of the body. Trusted: on a whole version 4 quote
/// the call returns; the body is an enclave report where the header's TEE
/// type is SGX and a TDX 1.0 report body where it is TDX; report data and
/// RTMR3 are the bytes at their offsets in the body, which follows the
/// 48-byte header.
#[verifier::external_body]
fn dcap_parse_v4(bytes: &[u8]) -> (body: QuoteBody)
    requires
        v4_frame_ok(bytes@),
    ensures
        body.reads(bytes@, QuoteLayout { version: 4, kind: v4_kind(bytes@)->0, body_at: 48 }),
{
    let quote = dcap_rs::types::quotes::version_4::QuoteV4::from_bytes(bytes);
    match quote.quote_body {
        dcap_rs::types::quotes::body::QuoteBody::SGXQuoteBody(r) => QuoteBody::SGXQuoteBody(
            EnclaveReport { report_data: r.report_data },
        ),
        dcap_rs::types::quotes::body::QuoteBody::TD10QuoteBody(r) => QuoteBody::TD10QuoteBody(
            TdReportBody { rtmr3: r.rtmr3, report_data: r.report_data },
        ),
    }
}

/// Reads the body of a version 5 quote, which lies behind the header, the
/// body type and the body size. The signature section is not read.
fn parse_v5(bytes: &[u8]) -> (body: QuoteBody)
    requires
        v5_frame_ok(bytes@),
    ensures
        body.reads(bytes@, QuoteLayout { version: 5, kind: v5_kind(bytes@)->0, body_at: 54 }),
{
    let body_type = read_le16(bytes, 48);
    if body_type == 1 {
        QuoteBody::SGXQuoteBody(EnclaveReport { report_data: take64(bytes, 54 + 320) })
    } else if body_type == 2 {
        QuoteBody::TD10QuoteBody(
            TdReportBody { rtmr3: take48(bytes, 54 + 472), report_data: take64(bytes, 54 + 520) },
        )
    } else {
        QuoteBody::TD15QuoteBody(
            TdReportBody { rtmr3: take48(bytes, 54 + 472), report_data: take64(bytes, 54 + 520) },
        )
    }
}

/// An attestation quote: the bytes as they came, and what was read of them.
#[derive(Clone, Debug)]
pub struct Quote {
    raw: Vec<u8>,
    report: QuoteReport,
}

impl Quote {
    /// The bytes of the quote, as they came.
    pub closed spec fn spec_raw(&self) -> Seq<u8> {
        self.raw@
    }

    /// What was read of the quote.
    pub closed spec fn spec_report(&self) -> QuoteReport {
        self.report
    }

    /// Whether `bytes` can be parsed: see `quote_frame_ok`.
    pub fn well_framed(bytes: &[u8]) -> (ok: bool)
        ensures
            ok == quote_frame_ok(bytes@),
    {
        if bytes.len() < HEADER_LEN {
            return true;
        }
        let version = read_le16(bytes, 0);
        if version == 3 {
            v3_frame_check(bytes)
        } else if version == 4 {
            v4_frame_check(bytes)
        } else if version == 5 {
            v5_frame_check(bytes)
        } else {
            true
        }
    }

    /// Parses the 48-byte header and, by its version, one of three body
    /// layouts. Fails on fewer bytes than a header holds and on a version
    /// that is none of 3, 4, 5. The raw bytes are kept.
    pub fn from_bytes(bytes: &[u8]) -> (r: Result<Quote, QuoteError>)
        requires
            quote_frame_ok(bytes@),
        ensures
            match r {
                Ok(quote) => quote_layout(bytes@) is Some && quote.spec_raw() == bytes@
                    && quote.spec_report().reads(bytes@, quote_layout(bytes@)->0),
                Err(QuoteError::InvalidHeaderSize(n)) => bytes.len() < 48 && n == bytes.len(),
                Err(QuoteError::UnknownQuote(v)) => bytes.len() >= 48 && v == header_version(bytes@)
                    && v != 3 && v != 4 && v != 5,
                Err(QuoteError::ReportData(_)) => false,
            },
    {
        if bytes.len() < HEADER_LEN {
            return Err(QuoteError::InvalidHeaderSize(bytes.len()));
        }
        let version = read_le16(bytes, 0);
        let report = if version == 3 {
            QuoteReport::V3(dcap_parse_v3(bytes))
        } else if version == 4 {
            QuoteReport::V4(dcap_parse_v4(bytes))
        } else if version == 5 {
            QuoteReport::V5(parse_v5(bytes))
        } else {
            return Err(QuoteError::UnknownQuote(version as u16));
        };
        Ok(Quote { raw: vstd::slice::slice_to_vec(bytes), report })
    }

    /// The bytes of the quote, as they came.
    pub fn to_bytes(&self) -> (bytes: Vec<u8>)
        ensures
            bytes@ == self.spec_raw(),
    {
        self.raw.clone()
    }

    /// What was read of the quote.
    pub fn quote_report(&self) -> (report: &QuoteReport)
        ensures
            *report == self.spec_report(),
    {
        &self.report
    }

    /// The 64 bytes of report data, from the body that the version has.
    pub fn report_data(&self) -> (data: [u8; 64])
        ensures
            data@ == self.spec_report().spec_report_data(),
    {
        match &self.report {
            QuoteReport::V3(report) => report.report_data,
            QuoteReport::V4(body) | QuoteReport::V5(body) => match body {
                QuoteBody::SGXQuoteBody(report) => report.report_data,
                QuoteBody::TD10QuoteBody(report) => report.report_data,
                QuoteBody::TD15QuoteBody(report) => report.report_data,
            },
        }
    }
}

impl Quote {
    /// The key that the report data opens with: its first 33 bytes, read as
    /// the SEC1 encoding of a secp256k1 key.
    pub fn k256_pk_report(&self) -> (r: Result<K256PkReport, QuoteError>)
        ensures
            match r {
                Ok(report) => sec1_compressed(
                    self.spec_report().spec_report_data().subrange(0, 33),
                ) == Some(report.spec_pubkey()@),
                Err(QuoteError::ReportData(message)) => sec1_compressed(
                    self.spec_report().spec_report_data().subrange(0, 33),
                ) is None && message@ == "invalid secp pk "@ + sec1_complaint(
                    self.spec_report().spec_report_data().subrange(0, 33),
                ),
                Err(_) => false,
            },
    {
        let report_data = self.report_data();
        let encoded = vstd::slice::slice_subrange(report_data.as_slice(), 0, 33);
        match PublicKey::parse(encoded) {
            Ok(pk) => Ok(K256PkReport { pk }),
            Err(complaint) => {
                let mut message = "invalid secp pk ".to_owned();
                message.append(complaint.as_str());
                Err(QuoteError::ReportData(message))
            },
        }
    }
}

/// A report that carries a secp256k1 key.
#[derive(Debug)]
pub struct K256PkReport {
    pk: PublicKey,
}

impl K256PkReport {
    /// The key of the report.
    pub closed spec fn spec_pubkey(&self) -> PublicKey {
        self.pk
    }

    pub fn new(pk: PublicKey) -> (report: Self)
        ensures
            report.spec_pubkey() == pk,
    {
        K256PkReport { pk }
    }

    pub fn pubkey(&self) -> (pk: &PublicKey)
        ensures
            *pk == self.spec_pubkey(),
    {
        &self.pk
    }

    /// The raw report of the key: its compressed encoding in the first 33
    /// bytes, zero in the rest.
    pub fn to_raw(&self) -> (report: RawReport)
        ensures
            report@.subrange(0, 33) == self.spec_pubkey()@,
            forall|i: int| 33 <= i < 64 ==> report@[i] == 0u8,
    {
        let point = self.pk.as_bytes();
        let mut buf = [0u8; 64];
        let mut i: usize = 0;
        while i < 33
            invariant
                i <= 33,
                point@.len() == 33,
                forall|j: int| 0 <= j < i ==> buf@[j] == point@[j],
                forall|j: int| i <= j < 64 ==> buf@[j] == 0u8,
            decreases 33 - i,
        {
            buf[i] = point[i];
            i += 1;
        }
        assert(buf@.subrange(0, 33) =~= point@);
        RawReport(buf)
    }

    /// The text of the report: the key in uppercase hexadecimal digits.
    pub fn describe(&self) -> (text: String)
        ensures
            text@ == "report: pk "@ + hex_upper(self.spec_pubkey()@),
    {
        let mut text = "report: pk ".to_owned();
        text.append(pk_to_hex(&self.pk).as_str());
        text
    }
}

/// The 64-byte user-controlled field of an attestation report.
#[derive(Debug)]
pub struct RawReport(pub [u8; 64]);

impl View for RawReport {
    type V = Seq<u8>;

    open spec fn view(&self) -> Seq<u8> {
        self.0@
    }
}

impl RawReport {
    pub fn new(raw: [u8; 64]) -> (report: Self)
        ensures
            report@ == raw@,
    {
        RawReport(raw)
    }

    pub fn to_bytes(&self) -> (bytes: [u8; 64])
        ensures
            bytes@ == self@,
    {
        self.0
    }
}

} // verus!
