//! Properties of the scanning engine that hold for all inputs.
use vstd::prelude::*;
use crate::scanner::{
    findings_of, header_findings, header_listed, is_scan_of, missing_content_type_options,
    missing_csp, missing_frame_options, missing_hsts, names_of, severity_weight, total_weight,
    validation_error, Finding,
    InvalidUrl, ProbeResponse, ScanError, ScanResult,
};
use crate::text::has_prefix;

verus! {

/// A URL that begins with neither `http://` nor `https://` is refused with a
/// validation error before any network activity: it has no probe plan, and a
/// scan of it fails with that error whatever probe outcomes are handed in.
pub proof fn lemma_unsupported_url_rejected(
    url: Seq<char>,
    header_probe: Result<ProbeResponse, ScanError>,
    path_probes: Seq<Result<ProbeResponse, ScanError>>,
    duration_ms: u64,
    r: Result<ScanResult, ScanError>,
)
    requires
        !has_prefix(url, "http://"@),
        !has_prefix(url, "https://"@),
        is_scan_of(r, url, header_probe, path_probes, duration_ms),
    ensures
        validation_error(url) matches Some(ScanError::ValidationError(_)),
        r matches Err(ScanError::ValidationError(_)),
        r == Err::<ScanResult, ScanError>(validation_error(url)->Some_0),
{
}

/// When the header probe fails in transport, the security-header check
/// yields no findings.
pub proof fn lemma_unreachable_target_has_no_header_findings(url: Seq<char>, e: ScanError)
    ensures
        header_findings(url, Err(e)) == Seq::<Finding>::empty(),
{
    assert(header_findings(url, Err(e)) =~= Seq::<Finding>::empty());
}

/// A response with none of the four security headers yields exactly four
/// findings, in check order: HSTS (Medium), X-Frame-Options (Medium),
/// X-Content-Type-Options (Low), Content-Security-Policy (High).
pub proof fn lemma_no_security_headers(url: Seq<char>, resp: ProbeResponse)
    requires
        !header_listed(names_of(resp), "strict-transport-security"@),
        !header_listed(names_of(resp), "x-frame-options"@),
        !header_listed(names_of(resp), "x-content-type-options"@),
        !header_listed(names_of(resp), "content-security-policy"@),
    ensures
        header_findings(url, Ok(resp)) == seq![
            missing_hsts(url),
            missing_frame_options(url),
            missing_content_type_options(url),
            missing_csp(url),
        ],
        header_findings(url, Ok(resp)).len() == 4,
        header_findings(url, Ok(resp)).map_values(|f: Finding| f.severity) == seq![
            "Medium"@,
            "Medium"@,
            "Low"@,
            "High"@,
        ],
{
    let fs = header_findings(url, Ok(resp));
    assert(fs =~= seq![
        missing_hsts(url),
        missing_frame_options(url),
        missing_content_type_options(url),
        missing_csp(url),
    ]);
    assert(fs.map_values(|f: Finding| f.severity) =~= seq!["Medium"@, "Medium"@, "Low"@, "High"@]);
}

/// Scanning the same URL twice with the same probe outcomes gives the same
/// outcome: the same error, or the same findings and the same score; only
/// the measured duration may differ.
pub proof fn lemma_scan_repeatable(
    url: Seq<char>,
    header_probe: Result<ProbeResponse, ScanError>,
    path_probes: Seq<Result<ProbeResponse, ScanError>>,
    first: Result<ScanResult, ScanError>,
    first_ms: u64,
    second: Result<ScanResult, ScanError>,
    second_ms: u64,
)
    requires
        is_scan_of(first, url, header_probe, path_probes, first_ms),
        is_scan_of(second, url, header_probe, path_probes, second_ms),
    ensures
        first is Ok <==> second is Ok,
        first is Err ==> first == second,
        first is Ok ==> findings_of(first->Ok_0.vulnerabilities@) == findings_of(
            second->Ok_0.vulnerabilities@,
        ),
        first is Ok ==> first->Ok_0.severity_score == second->Ok_0.severity_score,
{
}

/// The score of findings put one after the other is the sum of their scores;
/// the score of one finding is the weight of its severity.
pub proof fn lemma_score_is_sum_of_weights(a: Seq<Finding>, b: Seq<Finding>)
    ensures
        total_weight(a + b) == total_weight(a) + total_weight(b),
        b.len() == 1 ==> total_weight(b) == severity_weight(b[0].severity),
    decreases b.len(),
{
    if b.len() > 0 {
        lemma_score_is_sum_of_weights(a, b.drop_last());
        assert((a + b).drop_last() =~= a + b.drop_last());
    }
    if b.len() == 1 {
        assert(b.drop_last() =~= Seq::<Finding>::empty());
    }
}

} // verus!
