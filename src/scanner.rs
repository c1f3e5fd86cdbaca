//! The scanning engine: three independent checks over one target URL, the
//! merge of their findings, and the severity score.
//!
//! Network probes are made by the caller. The engine names the probes a scan
//! needs (`VulnerabilityScanner::probe_plan`) and turns their outcomes into a
//! report (`VulnerabilityScanner::scan_url`).
use vstd::prelude::*;
use vstd::string::StringExecFns;
use crate::text::{
    eq_ignore_ascii_case, eq_ignore_case, has_prefix, host_at, host_from, starts_with,
    strip_trailing_slashes, trim_trailing_slashes,
};

verus! {

/// Score weight of a `Critical` finding.
pub const CRITICAL_WEIGHT: u32 = 10;

/// Score weight of a `High` finding.
pub const HIGH_WEIGHT: u32 = 7;

/// Score weight of a `Medium` finding.
pub const MEDIUM_WEIGHT: u32 = 4;

/// Score weight of a `Low` finding.
pub const LOW_WEIGHT: u32 = 1;

/// Timeout of the probe that fetches the target's headers.
pub const HEADER_PROBE_TIMEOUT_SECS: u64 = 10;

/// Timeout of each sensitive-path probe.
pub const PATH_PROBE_TIMEOUT_SECS: u64 = 5;

/// The most findings whose score surely fits in a `u32`.
pub const MAX_SCORED_FINDINGS: usize = 429_496_729;

/// Sensitive path: a Git repository's configuration.
pub const GIT_CONFIG_PATH: &'static str = "/.git/config";

/// Sensitive path: an environment file.
pub const ENV_FILE_PATH: &'static str = "/.env";

/// Sensitive path: a PHP configuration file.
pub const CONFIG_PHP_PATH: &'static str = "/config.php";

/// Sensitive path: WordPress's configuration file.
pub const WP_CONFIG_PATH: &'static str = "/wp-config.php";

/// Sensitive path: an administration area.
pub const ADMIN_PATH: &'static str = "/admin";

/// Sensitive path: a phpMyAdmin installation.
pub const PHPMYADMIN_PATH: &'static str = "/phpmyadmin";

/// The sensitive paths that a scan probes, in order.
pub open spec fn sensitive_path_list() -> Seq<Seq<char>> {
    seq![
        GIT_CONFIG_PATH@,
        ENV_FILE_PATH@,
        CONFIG_PHP_PATH@,
        WP_CONFIG_PATH@,
        ADMIN_PATH@,
        PHPMYADMIN_PATH@,
    ]
}

/// The sensitive paths that a scan probes, in order.
pub fn sensitive_paths() -> (r: Vec<&'static str>)
    ensures
        r@.map_values(|p: &str| p@) == sensitive_path_list(),
{
    let r = vec![
        GIT_CONFIG_PATH,
        ENV_FILE_PATH,
        CONFIG_PHP_PATH,
        WP_CONFIG_PATH,
        ADMIN_PATH,
        PHPMYADMIN_PATH,
    ];
    assert(r@.map_values(|p: &str| p@) =~= sensitive_path_list());
    r
}

/// One issue found on the target.
pub struct Vulnerability {
    pub vuln_type: String,
    pub severity: String,
    pub description: String,
    pub location: String,
    pub recommendation: String,
}

/// What a `Vulnerability` holds, as character sequences.
pub struct Finding {
    pub vuln_type: Seq<char>,
    pub severity: Seq<char>,
    pub description: Seq<char>,
    pub location: Seq<char>,
    pub recommendation: Seq<char>,
}

impl View for Vulnerability {
    type V = Finding;

    open spec fn view(&self) -> Finding {
        Finding {
            vuln_type: self.vuln_type@,
            severity: self.severity@,
            description: self.description@,
            location: self.location@,
            recommendation: self.recommendation@,
        }
    }
}

/// The findings that a sequence of vulnerabilities holds.
pub open spec fn findings_of(v: Seq<Vulnerability>) -> Seq<Finding> {
    v.map_values(|x: Vulnerability| x@)
}

/// The report of one scan.
pub struct ScanResult {
    pub vulnerabilities: Vec<Vulnerability>,
    pub severity_score: u32,
    pub scan_duration_ms: u64,
}

/// Why a URL is not a scan target.
#[derive(Clone, Copy, Debug, PartialEq, Eq, Structural)]
pub enum InvalidUrl {
    /// The URL is empty.
    Empty,
    /// The URL does not begin with `http://` or `https://`.
    UnsupportedScheme,
}

/// The ways a scan, or one of its probes, can fail.
#[derive(Clone, Copy, Debug, PartialEq, Eq, Structural)]
pub enum ScanError {
    /// The input URL is malformed; no probe is made.
    ValidationError(InvalidUrl),
    /// One probe failed in transport (DNS, connection, timeout, TLS).
    TransportError,
    /// The pipeline itself failed.
    InternalError,
}

/// What a successful probe returned: its status and its header names.
pub struct ProbeResponse {
    pub status: u16,
    pub header_names: Vec<String>,
}

/// One outbound GET that a scan needs.
pub struct ProbeRequest {
    pub url: String,
    pub timeout_secs: u64,
}

/// The probes of one scan: the header probe, then one per sensitive path.
pub struct ScanPlan {
    pub header_probe: ProbeRequest,
    pub path_probes: Vec<ProbeRequest>,
}

/// The header names of a response, as character sequences.
pub open spec fn names_of(resp: ProbeResponse) -> Seq<Seq<char>> {
    resp.header_names@.map_values(|h: String| h@)
}

/// `name` is among `names`, up to ASCII case.
pub open spec fn header_listed(names: Seq<Seq<char>>, name: Seq<char>) -> bool {
    exists|i: int| 0 <= i < names.len() && eq_ignore_case(#[trigger] names[i], name)
}

/// Whether `name` is among `names`, up to ASCII case.
fn has_header(names: &Vec<String>, name: &str) -> (r: bool)
    ensures
        r == header_listed(names@.map_values(|h: String| h@), name@),
{
    let ghost view = names@.map_values(|h: String| h@);
    let mut i: usize = 0;
    while i < names.len()
        invariant
            i <= names@.len(),
            view == names@.map_values(|h: String| h@),
            forall|k: int| 0 <= k < i ==> !eq_ignore_case(#[trigger] view[k], name@),
        decreases names@.len() - i,
    {
        if eq_ignore_ascii_case(names[i].as_str(), name) {
            assert(eq_ignore_case(view[i as int], name@));
            return true;
        }
        i = i + 1;
    }
    false
}

/// The finding with these parts.
pub open spec fn finding(
    vuln_type: Seq<char>,
    severity: Seq<char>,
    description: Seq<char>,
    location: Seq<char>,
    recommendation: Seq<char>,
) -> Finding {
    Finding { vuln_type, severity, description, location, recommendation }
}

fn new_finding(
    vuln_type: &str,
    severity: &str,
    description: &str,
    location: &str,
    recommendation: &str,
) -> (r: Vulnerability)
    ensures
        r@ == finding(vuln_type@, severity@, description@, location@, recommendation@),
{
    Vulnerability {
        vuln_type: String::from_str(vuln_type),
        severity: String::from_str(severity),
        description: String::from_str(description),
        location: String::from_str(location),
        recommendation: String::from_str(recommendation),
    }
}

/// The finding for a missing `Strict-Transport-Security` header.
pub open spec fn missing_hsts(url: Seq<char>) -> Finding {
    finding(
        "Missing HSTS Header"@,
        "Medium"@,
        "HTTP Strict Transport Security (HSTS) header not found. This allows downgrade attacks."@,
        url,
        "Add 'Strict-Transport-Security: max-age=31536000; includeSubDomains' header"@,
    )
}

/// The finding for a missing `X-Frame-Options` header.
pub open spec fn missing_frame_options(url: Seq<char>) -> Finding {
    finding(
        "Missing X-Frame-Options"@,
        "Medium"@,
        "X-Frame-Options header not set. Site may be vulnerable to clickjacking attacks."@,
        url,
        "Add 'X-Frame-Options: DENY' or 'X-Frame-Options: SAMEORIGIN' header"@,
    )
}

/// The finding for a missing `X-Content-Type-Options` header.
pub open spec fn missing_content_type_options(url: Seq<char>) -> Finding {
    finding(
        "Missing X-Content-Type-Options"@,
        "Low"@,
        "X-Content-Type-Options header not found. Browser may interpret files as different MIME type."@,
        url,
        "Add 'X-Content-Type-Options: nosniff' header"@,
    )
}

/// The finding for a missing `Content-Security-Policy` header.
pub open spec fn missing_csp(url: Seq<char>) -> Finding {
    finding(
        "Missing Content-Security-Policy"@,
        "High"@,
        "Content Security Policy (CSP) not implemented. Site may be vulnerable to XSS attacks."@,
        url,
        "Implement a strong Content-Security-Policy header to prevent XSS attacks"@,
    )
}

/// `f` alone when `present` holds, else nothing.
pub open spec fn only_if(present: bool, f: Finding) -> Seq<Finding> {
    if present {
        seq![f]
    } else {
        seq![]
    }
}

/// The findings of the security-header check, given the outcome of the
/// probe of `url`.
pub open spec fn header_findings(url: Seq<char>, probe: Result<ProbeResponse, ScanError>) -> Seq<Finding> {
    match probe {
        Err(_) => seq![],
        Ok(resp) => {
            let names = names_of(resp);
            only_if(!header_listed(names, "strict-transport-security"@), missing_hsts(url))
                + only_if(!header_listed(names, "x-frame-options"@), missing_frame_options(url))
                + only_if(
                !header_listed(names, "x-content-type-options"@),
                missing_content_type_options(url),
            ) + only_if(!header_listed(names, "content-security-policy"@), missing_csp(url))
        },
    }
}

/// Adds `f` to `v` when `present` holds.
fn push_if(v: &mut Vec<Vulnerability>, present: bool, f: Vulnerability)
    ensures
        findings_of(final(v)@) == findings_of(old(v)@) + only_if(present, f@),
{
    let ghost before = v@;
    if present {
        v.push(f);
        assert(findings_of(v@) =~= findings_of(before) + seq![f@]);
    } else {
        assert(findings_of(v@) =~= findings_of(before) + seq![]);
    }
}

/// The URL that probes `path` on the target `url`.
pub open spec fn probe_url(url: Seq<char>, path: Seq<char>) -> Seq<char> {
    strip_trailing_slashes(url) + path
}

/// The URL that probes `path` on the target `url`.
pub fn path_url(url: &str, path: &str) -> (r: String)
    ensures
        r@ == probe_url(url@, path@),
{
    let mut r = String::from_str(trim_trailing_slashes(url));
    r.append(path);
    r
}

/// The finding for a sensitive path that answered with success.
pub open spec fn exposed_path(url: Seq<char>, path: Seq<char>) -> Finding {
    finding(
        "Sensitive File Exposed"@,
        "High"@,
        "Sensitive file or directory accessible: "@ + path,
        probe_url(url, path),
        "Restrict access to sensitive files and directories. Use .htaccess or server configuration."@,
    )
}

/// A status in the success range.
pub open spec fn is_success(status: u16) -> bool {
    200 <= status <= 299
}

/// The probe outcome succeeded with a success status.
pub open spec fn answered_success(probe: Result<ProbeResponse, ScanError>) -> bool {
    match probe {
        Ok(resp) => is_success(resp.status),
        Err(_) => false,
    }
}

/// The findings for the first `n` sensitive paths, where `probes[i]` is the
/// outcome of the probe of path `i` (a missing outcome counts as a failure).
pub open spec fn path_findings_upto(
    url: Seq<char>,
    probes: Seq<Result<ProbeResponse, ScanError>>,
    n: nat,
) -> Seq<Finding>
    decreases n,
{
    if n == 0 {
        seq![]
    } else {
        let i = n - 1;
        path_findings_upto(url, probes, i as nat) + only_if(
            i < probes.len() && answered_success(probes[i]),
            exposed_path(url, sensitive_path_list()[i]),
        )
    }
}

/// The findings of the sensitive-path check.
pub open spec fn path_findings(url: Seq<char>, probes: Seq<Result<ProbeResponse, ScanError>>) -> Seq<
    Finding,
> {
    path_findings_upto(url, probes, sensitive_path_list().len())
}

/// The target is reached over plain HTTP, on a host other than `localhost`.
pub open spec fn is_insecure_transport(url: Seq<char>) -> bool {
    has_prefix(url, "http://"@) && !eq_ignore_case(host_at(url, 7), "localhost"@)
}

/// The finding for a target reached over plain HTTP.
pub open spec fn plaintext_transport(url: Seq<char>) -> Finding {
    finding(
        "Insecure Connection (HTTP)"@,
        "Critical"@,
        "Website is using HTTP instead of HTTPS. All data is transmitted in plaintext."@,
        url,
        "Implement HTTPS with a valid SSL/TLS certificate. Use Let's Encrypt for free certificates."@,
    )
}

/// The findings of the transport-security check.
pub open spec fn transport_findings(url: Seq<char>) -> Seq<Finding> {
    only_if(is_insecure_transport(url), plaintext_transport(url))
}

/// The score weight of a severity; an unknown one weighs nothing.
pub open spec fn severity_weight(severity: Seq<char>) -> nat {
    if severity == "Critical"@ {
        CRITICAL_WEIGHT as nat
    } else if severity == "High"@ {
        HIGH_WEIGHT as nat
    } else if severity == "Medium"@ {
        MEDIUM_WEIGHT as nat
    } else if severity == "Low"@ {
        LOW_WEIGHT as nat
    } else {
        0
    }
}

/// The sum of the weights of the findings' severities.
pub open spec fn total_weight(findings: Seq<Finding>) -> nat
    decreases findings.len(),
{
    if findings.len() == 0 {
        0
    } else {
        total_weight(findings.drop_last()) + severity_weight(findings.last().severity)
    }
}

proof fn lemma_total_weight_bound(findings: Seq<Finding>)
    ensures
        total_weight(findings) <= 10 * findings.len(),
    decreases findings.len(),
{
    if findings.len() > 0 {
        lemma_total_weight_bound(findings.drop_last());
    }
}

/// The weight of the severity `s`.
fn weight_of(s: &String) -> (r: u32)
    ensures
        r as nat == severity_weight(s@),
{
    if *s == String::from_str("Critical") {
        CRITICAL_WEIGHT
    } else if *s == String::from_str("High") {
        HIGH_WEIGHT
    } else if *s == String::from_str("Medium") {
        MEDIUM_WEIGHT
    } else if *s == String::from_str("Low") {
        LOW_WEIGHT
    } else {
        0
    }
}

/// `url` begins with `http://` or `https://`.
pub open spec fn is_web_url(url: Seq<char>) -> bool {
    has_prefix(url, "http://"@) || has_prefix(url, "https://"@)
}

/// The validation error for `url`, if any.
pub open spec fn validation_error(url: Seq<char>) -> Option<ScanError> {
    if url.len() == 0 {
        Some(ScanError::ValidationError(InvalidUrl::Empty))
    } else if !is_web_url(url) {
        Some(ScanError::ValidationError(InvalidUrl::UnsupportedScheme))
    } else {
        None
    }
}

/// The error of a scan of `url` given `n_path_probes` path outcomes, if any.
pub open spec fn scan_error(url: Seq<char>, n_path_probes: nat) -> Option<ScanError> {
    if validation_error(url) is Some {
        validation_error(url)
    } else if n_path_probes != sensitive_path_list().len() {
        Some(ScanError::InternalError)
    } else {
        None
    }
}

/// The findings of a scan, in check order: headers, transport, paths.
pub open spec fn scan_findings(
    url: Seq<char>,
    header_probe: Result<ProbeResponse, ScanError>,
    path_probes: Seq<Result<ProbeResponse, ScanError>>,
) -> Seq<Finding> {
    header_findings(url, header_probe) + transport_findings(url) + path_findings(url, path_probes)
}

/// `r` is the outcome of a scan of `url` with these probe outcomes that
/// took `duration_ms`.
pub open spec fn is_scan_of(
    r: Result<ScanResult, ScanError>,
    url: Seq<char>,
    header_probe: Result<ProbeResponse, ScanError>,
    path_probes: Seq<Result<ProbeResponse, ScanError>>,
    duration_ms: u64,
) -> bool {
    match r {
        Ok(report) => {
            &&& scan_error(url, path_probes.len()) is None
            &&& findings_of(report.vulnerabilities@) == scan_findings(url, header_probe, path_probes)
            &&& report.severity_score as nat == total_weight(
                scan_findings(url, header_probe, path_probes),
            )
            &&& report.scan_duration_ms == duration_ms
        },
        Err(e) => scan_error(url, path_probes.len()) == Some(e),
    }
}

/// `p` is a GET of `url` with this timeout.
pub open spec fn is_probe(p: ProbeRequest, url: Seq<char>, timeout_secs: u64) -> bool {
    p.url@ == url && p.timeout_secs == timeout_secs
}

/// `plan` holds the probes of a scan of `url`.
pub open spec fn is_plan_of(plan: ScanPlan, url: Seq<char>) -> bool {
    &&& is_probe(plan.header_probe, url, HEADER_PROBE_TIMEOUT_SECS)
    &&& plan.path_probes@.len() == sensitive_path_list().len()
    &&& forall|i: int|
        0 <= i < plan.path_probes@.len() ==> is_probe(
            #[trigger] plan.path_probes@[i],
            probe_url(url, sensitive_path_list()[i]),
            PATH_PROBE_TIMEOUT_SECS,
        )
}

/// The short category of an error, as the service reports it.
pub open spec fn error_category(e: ScanError) -> Seq<char> {
    match e {
        ScanError::ValidationError(InvalidUrl::Empty) => "Invalid input"@,
        ScanError::ValidationError(InvalidUrl::UnsupportedScheme) => "Invalid URL"@,
        _ => "Scan failed"@,
    }
}

/// The human-readable detail of an error.
pub open spec fn error_message(e: ScanError) -> Seq<char> {
    match e {
        ScanError::ValidationError(InvalidUrl::Empty) => "URL cannot be empty"@,
        ScanError::ValidationError(InvalidUrl::UnsupportedScheme) => "URL must start with http:// or https://"@,
        ScanError::TransportError => "A probe could not reach the target"@,
        ScanError::InternalError => "The probe results do not match the scan plan"@,
    }
}

impl ScanError {
    /// The short category of this error: `Invalid input`, `Invalid URL` or
    /// `Scan failed`.
    pub fn category(&self) -> (r: &'static str)
        ensures
            r@ == error_category(*self),
    {
        match self {
            ScanError::ValidationError(InvalidUrl::Empty) => "Invalid input",
            ScanError::ValidationError(InvalidUrl::UnsupportedScheme) => "Invalid URL",
            _ => "Scan failed",
        }
    }

    /// The human-readable detail of this error.
    pub fn message(&self) -> (r: &'static str)
        ensures
            r@ == error_message(*self),
    {
        match self {
            ScanError::ValidationError(InvalidUrl::Empty) => "URL cannot be empty",
            ScanError::ValidationError(InvalidUrl::UnsupportedScheme) => "URL must start with http:// or https://",
            ScanError::TransportError => "A probe could not reach the target",
            ScanError::InternalError => "The probe results do not match the scan plan",
        }
    }
}

proof fn lemma_path_findings_len(
    url: Seq<char>,
    probes: Seq<Result<ProbeResponse, ScanError>>,
    n: nat,
)
    ensures
        path_findings_upto(url, probes, n).len() <= n,
    decreases n,
{
    if n > 0 {
        lemma_path_findings_len(url, probes, (n - 1) as nat);
    }
}

/// One of the independent checks that a scan runs.
#[derive(Clone, Copy, Debug, PartialEq, Eq, Structural)]
pub enum CheckModule {
    /// Missing security headers on the target's response.
    SecurityHeaders,
    /// A target reached over plain HTTP.
    TransportSecurity,
    /// Sensitive paths that answer with success.
    SensitivePaths,
}

/// The checks of a scan, in the order their findings are reported.
pub open spec fn check_order() -> Seq<CheckModule> {
    seq![CheckModule::SecurityHeaders, CheckModule::TransportSecurity, CheckModule::SensitivePaths]
}

/// The findings of check `m` given the probe outcomes of a scan of `url`.
pub open spec fn module_findings(
    m: CheckModule,
    url: Seq<char>,
    header_probe: Result<ProbeResponse, ScanError>,
    path_probes: Seq<Result<ProbeResponse, ScanError>>,
) -> Seq<Finding> {
    match m {
        CheckModule::SecurityHeaders => header_findings(url, header_probe),
        CheckModule::TransportSecurity => transport_findings(url),
        CheckModule::SensitivePaths => path_findings(url, path_probes),
    }
}

/// The findings of the first `n` checks of `checks`, one after the other.
pub open spec fn findings_of_checks(
    checks: Seq<CheckModule>,
    n: nat,
    url: Seq<char>,
    header_probe: Result<ProbeResponse, ScanError>,
    path_probes: Seq<Result<ProbeResponse, ScanError>>,
) -> Seq<Finding>
    decreases n,
{
    if n == 0 || n > checks.len() {
        seq![]
    } else {
        findings_of_checks(checks, (n - 1) as nat, url, header_probe, path_probes) + module_findings(
            checks[n - 1],
            url,
            header_probe,
            path_probes,
        )
    }
}

/// The checks of a scan, in the order their findings are reported.
pub fn check_modules() -> (r: Vec<CheckModule>)
    ensures
        r@ == check_order(),
{
    let r = vec![CheckModule::SecurityHeaders, CheckModule::TransportSecurity, CheckModule::SensitivePaths];
    assert(r@ =~= check_order());
    r
}

impl CheckModule {
    /// Runs this check against `url`, given the probe outcomes of the scan.
    pub fn run(
        &self,
        url: &str,
        header_probe: &Result<ProbeResponse, ScanError>,
        path_probes: &Vec<Result<ProbeResponse, ScanError>>,
    ) -> (r: Vec<Vulnerability>)
        ensures
            findings_of(r@) == module_findings(*self, url@, *header_probe, path_probes@),
    {
        match self {
            CheckModule::SecurityHeaders => VulnerabilityScanner::check_security_headers(url, header_probe),
            CheckModule::TransportSecurity => VulnerabilityScanner::check_ssl(url),
            CheckModule::SensitivePaths => VulnerabilityScanner::check_common_vulns(url, path_probes),
        }
    }
}

/// The namespace of the scanning engine.
pub struct VulnerabilityScanner;

impl VulnerabilityScanner {
    /// The security-header check: one finding for each of the four headers
    /// that the response lacks, none when the probe failed.
    pub fn check_security_headers(url: &str, probe: &Result<ProbeResponse, ScanError>) -> (r: Vec<
        Vulnerability,
    >)
        ensures
            findings_of(r@) == header_findings(url@, *probe),
    {
        let mut vulns: Vec<Vulnerability> = Vec::new();
        match probe {
            Ok(response) => {
                let headers = &response.header_names;
                let absent = !has_header(headers, "strict-transport-security");
                push_if(
                    &mut vulns,
                    absent,
                    new_finding(
                        "Missing HSTS Header",
                        "Medium",
                        "HTTP Strict Transport Security (HSTS) header not found. This allows downgrade attacks.",
                        url,
                        "Add 'Strict-Transport-Security: max-age=31536000; includeSubDomains' header",
                    ),
                );
                let absent = !has_header(headers, "x-frame-options");
                push_if(
                    &mut vulns,
                    absent,
                    new_finding(
                        "Missing X-Frame-Options",
                        "Medium",
                        "X-Frame-Options header not set. Site may be vulnerable to clickjacking attacks.",
                        url,
                        "Add 'X-Frame-Options: DENY' or 'X-Frame-Options: SAMEORIGIN' header",
                    ),
                );
                let absent = !has_header(headers, "x-content-type-options");
                push_if(
                    &mut vulns,
                    absent,
                    new_finding(
                        "Missing X-Content-Type-Options",
                        "Low",
                        "X-Content-Type-Options header not found. Browser may interpret files as different MIME type.",
                        url,
                        "Add 'X-Content-Type-Options: nosniff' header",
                    ),
                );
                let absent = !has_header(headers, "content-security-policy");
                push_if(
                    &mut vulns,
                    absent,
                    new_finding(
                        "Missing Content-Security-Policy",
                        "High",
                        "Content Security Policy (CSP) not implemented. Site may be vulnerable to XSS attacks.",
                        url,
                        "Implement a strong Content-Security-Policy header to prevent XSS attacks",
                    ),
                );
                assert(findings_of(vulns@) =~= header_findings(url@, *probe));
            },
            Err(_) => {
                assert(findings_of(vulns@) =~= seq![]);
            },
        }
        vulns
    }
    /// The transport-security check: one `Critical` finding when the target
    /// is reached over plain HTTP on a host other than `localhost`.
    pub fn check_ssl(url: &str) -> (r: Vec<Vulnerability>)
        ensures
            findings_of(r@) == transport_findings(url@),
    {
        let mut vulns: Vec<Vulnerability> = Vec::new();
        proof {
            reveal_strlit("http://");
        }
        let insecure = starts_with(url, "http://") && !eq_ignore_ascii_case(
            host_from(url, 7),
            "localhost",
        );
        push_if(
            &mut vulns,
            insecure,
            new_finding(
                "Insecure Connection (HTTP)",
                "Critical",
                "Website is using HTTP instead of HTTPS. All data is transmitted in plaintext.",
                url,
                "Implement HTTPS with a valid SSL/TLS certificate. Use Let's Encrypt for free certificates.",
            ),
        );
        assert(findings_of(vulns@) =~= transport_findings(url@));
        vulns
    }

    /// The sensitive-path check: one `High` finding for each sensitive path
    /// whose probe answered with a 2xx status, in the order of the path
    /// list. `probes[i]` is the outcome of the probe of path `i`; a missing
    /// outcome counts as a failed probe.
    pub fn check_common_vulns(url: &str, probes: &Vec<Result<ProbeResponse, ScanError>>) -> (r: Vec<
        Vulnerability,
    >)
        ensures
            findings_of(r@) == path_findings(url@, probes@),
    {
        let mut vulns: Vec<Vulnerability> = Vec::new();
        let paths = sensitive_paths();
        let mut i: usize = 0;
        while i < paths.len()
            invariant
                i <= paths@.len(),
                paths@.map_values(|p: &str| p@) == sensitive_path_list(),
                findings_of(vulns@) == path_findings_upto(url@, probes@, i as nat),
            decreases paths@.len() - i,
        {
            let path = paths[i];
            assert(path@ == sensitive_path_list()[i as int]);
            let exposed = i < probes.len() && match &probes[i] {
                Ok(response) => 200 <= response.status && response.status <= 299,
                Err(_) => false,
            };
            let mut description = String::from_str("Sensitive file or directory accessible: ");
            description.append(path);
            let f = Vulnerability {
                vuln_type: String::from_str("Sensitive File Exposed"),
                severity: String::from_str("High"),
                description,
                location: path_url(url, path),
                recommendation: String::from_str(
                    "Restrict access to sensitive files and directories. Use .htaccess or server configuration.",
                ),
            };
            assert(f@ == exposed_path(url@, path@));
            push_if(&mut vulns, exposed, f);
            i = i + 1;
        }
        vulns
    }

    /// The severity score: the sum of the weights of the findings'
    /// severities (`Critical` 10, `High` 7, `Medium` 4, `Low` 1, any other 0).
    pub fn calculate_severity(vulnerabilities: &[Vulnerability]) -> (r: u32)
        requires
            vulnerabilities@.len() <= MAX_SCORED_FINDINGS,
        ensures
            r as nat == total_weight(findings_of(vulnerabilities@)),
    {
        let ghost all = findings_of(vulnerabilities@);
        let mut total: u32 = 0;
        let mut i: usize = 0;
        while i < vulnerabilities.len()
            invariant
                i <= vulnerabilities@.len() <= MAX_SCORED_FINDINGS,
                all == findings_of(vulnerabilities@),
                total as nat == total_weight(all.subrange(0, i as int)),
            decreases vulnerabilities@.len() - i,
        {
            proof {
                assert(all.subrange(0, i + 1).drop_last() =~= all.subrange(0, i as int));
                lemma_total_weight_bound(all.subrange(0, i as int));
            }
            let w = weight_of(&vulnerabilities[i].severity);
            total = total + w;
            i = i + 1;
        }
        assert(all.subrange(0, i as int) =~= all);
        total
    }
    /// Checks that `url` can be scanned: it is not empty and begins with
    /// `http://` or `https://`.
    pub fn validate_url(url: &str) -> (r: Result<(), ScanError>)
        ensures
            r is Ok <==> validation_error(url@) is None,
            r matches Err(e) ==> validation_error(url@) == Some(e),
    {
        if url.unicode_len() == 0 {
            return Err(ScanError::ValidationError(InvalidUrl::Empty));
        }
        if !starts_with(url, "http://") && !starts_with(url, "https://") {
            return Err(ScanError::ValidationError(InvalidUrl::UnsupportedScheme));
        }
        Ok(())
    }

    /// The probes that a scan of `url` needs, or the validation error that
    /// stops the scan before any probe.
    pub fn probe_plan(url: &str) -> (r: Result<ScanPlan, ScanError>)
        ensures
            match r {
                Ok(plan) => validation_error(url@) is None && is_plan_of(plan, url@),
                Err(e) => validation_error(url@) == Some(e),
            },
    {
        Self::validate_url(url)?;
        let header_probe = ProbeRequest {
            url: String::from_str(url),
            timeout_secs: HEADER_PROBE_TIMEOUT_SECS,
        };
        let paths = sensitive_paths();
        let mut path_probes: Vec<ProbeRequest> = Vec::new();
        let mut i: usize = 0;
        while i < paths.len()
            invariant
                i <= paths@.len(),
                paths@.map_values(|p: &str| p@) == sensitive_path_list(),
                path_probes@.len() == i,
                forall|k: int|
                    0 <= k < i ==> is_probe(
                        #[trigger] path_probes@[k],
                        probe_url(url@, sensitive_path_list()[k]),
                        PATH_PROBE_TIMEOUT_SECS,
                    ),
            decreases paths@.len() - i,
        {
            let path = paths[i];
            assert(path@ == sensitive_path_list()[i as int]);
            path_probes.push(ProbeRequest { url: path_url(url, path), timeout_secs: PATH_PROBE_TIMEOUT_SECS });
            i = i + 1;
        }
        Ok(ScanPlan { header_probe, path_probes })
    }

    /// Scans `url` from the outcomes of the probes of its plan: the header
    /// probe, then one outcome per sensitive path. Transport failures of
    /// probes yield no findings; the scan fails only on an invalid URL, or
    /// when the number of path outcomes does not match the plan.
    pub fn scan_url(
        url: &str,
        header_probe: &Result<ProbeResponse, ScanError>,
        path_probes: &Vec<Result<ProbeResponse, ScanError>>,
        duration_ms: u64,
    ) -> (r: Result<ScanResult, ScanError>)
        ensures
            is_scan_of(r, url@, *header_probe, path_probes@, duration_ms),
    {
        Self::validate_url(url)?;
        if path_probes.len() != sensitive_paths().len() {
            return Err(ScanError::InternalError);
        }
        let checks = check_modules();
        let mut vulnerabilities: Vec<Vulnerability> = Vec::new();
        let mut i: usize = 0;
        while i < checks.len()
            invariant
                i <= checks@.len(),
                checks@ == check_order(),
                findings_of(vulnerabilities@) == findings_of_checks(
                    checks@,
                    i as nat,
                    url@,
                    *header_probe,
                    path_probes@,
                ),
            decreases checks@.len() - i,
        {
            let ghost before = vulnerabilities@;
            let mut found = checks[i].run(url, header_probe, path_probes);
            let ghost more = found@;
            vulnerabilities.append(&mut found);
            assert(findings_of(vulnerabilities@) =~= findings_of(before) + findings_of(more));
            i = i + 1;
        }
        proof {
            assert(findings_of_checks(check_order(), 3, url@, *header_probe, path_probes@) =~= scan_findings(
                url@,
                *header_probe,
                path_probes@,
            )) by {
                reveal_with_fuel(findings_of_checks, 4);
            }
            lemma_path_findings_len(url@, path_probes@, sensitive_path_list().len());
        }
        let severity_score = Self::calculate_severity(vulnerabilities.as_slice());
        Ok(ScanResult { vulnerabilities, severity_score, scan_duration_ms: duration_ms })
    }
}

} // verus!
