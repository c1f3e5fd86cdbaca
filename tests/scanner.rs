use vuln_scanner::scanner::{
    check_modules, sensitive_paths, CheckModule, InvalidUrl, ProbeResponse, ScanError, ScanResult, Vulnerability,
    VulnerabilityScanner, HEADER_PROBE_TIMEOUT_SECS, PATH_PROBE_TIMEOUT_SECS,
};
use vuln_scanner::text::{eq_ignore_ascii_case, host_from, starts_with, trim_trailing_slashes};

fn response(status: u16, headers: &[&str]) -> Result<ProbeResponse, ScanError> {
    Ok(ProbeResponse { status, header_names: headers.iter().map(|h| h.to_string()).collect() })
}

fn all_failed() -> Vec<Result<ProbeResponse, ScanError>> {
    sensitive_paths().iter().map(|_| Err(ScanError::TransportError)).collect()
}

fn finding(severity: &str) -> Vulnerability {
    Vulnerability {
        vuln_type: "t".to_string(),
        severity: severity.to_string(),
        description: "d".to_string(),
        location: "l".to_string(),
        recommendation: "r".to_string(),
    }
}

fn severities(v: &[Vulnerability]) -> Vec<&str> {
    v.iter().map(|f| f.severity.as_str()).collect()
}

#[test]
fn unsupported_scheme_is_rejected_without_probes() {
    assert_eq!(
        VulnerabilityScanner::probe_plan("ftp://example.com").err(),
        Some(ScanError::ValidationError(InvalidUrl::UnsupportedScheme))
    );
    let r = VulnerabilityScanner::scan_url(
        "example.com",
        &response(200, &[]),
        &all_failed(),
        3,
    );
    assert_eq!(r.err(), Some(ScanError::ValidationError(InvalidUrl::UnsupportedScheme)));
}

#[test]
fn empty_url_is_rejected() {
    assert_eq!(
        VulnerabilityScanner::validate_url(""),
        Err(ScanError::ValidationError(InvalidUrl::Empty))
    );
    assert!(VulnerabilityScanner::probe_plan("").is_err());
    let e = ScanError::ValidationError(InvalidUrl::Empty);
    assert_eq!(e.category(), "Invalid input");
    assert_eq!(e.message(), "URL cannot be empty");
}

#[test]
fn error_categories() {
    let e = ScanError::ValidationError(InvalidUrl::UnsupportedScheme);
    assert_eq!(e.category(), "Invalid URL");
    assert_eq!(e.message(), "URL must start with http:// or https://");
    assert_eq!(ScanError::InternalError.category(), "Scan failed");
    assert_eq!(ScanError::TransportError.category(), "Scan failed");
}

#[test]
fn valid_urls_pass_validation() {
    assert_eq!(VulnerabilityScanner::validate_url("http://example.com"), Ok(()));
    assert_eq!(VulnerabilityScanner::validate_url("https://example.com"), Ok(()));
    assert!(VulnerabilityScanner::validate_url("HTTP://example.com").is_err());
}

#[test]
fn failed_header_probe_yields_no_findings() {
    let v = VulnerabilityScanner::check_security_headers(
        "https://example.com",
        &Err(ScanError::TransportError),
    );
    assert!(v.is_empty());
}

#[test]
fn missing_all_security_headers() {
    let v = VulnerabilityScanner::check_security_headers(
        "https://example.com",
        &response(200, &["content-type", "server"]),
    );
    assert_eq!(v.len(), 4);
    assert_eq!(severities(&v), vec!["Medium", "Medium", "Low", "High"]);
    assert_eq!(v[0].vuln_type, "Missing HSTS Header");
    assert_eq!(v[1].vuln_type, "Missing X-Frame-Options");
    assert_eq!(v[2].vuln_type, "Missing X-Content-Type-Options");
    assert_eq!(v[3].vuln_type, "Missing Content-Security-Policy");
    assert!(v.iter().all(|f| f.location == "https://example.com"));
    assert_eq!(v[2].recommendation, "Add 'X-Content-Type-Options: nosniff' header");
}

#[test]
fn present_headers_match_regardless_of_case() {
    let v = VulnerabilityScanner::check_security_headers(
        "https://example.com",
        &response(500, &["Strict-Transport-Security", "X-FRAME-OPTIONS", "content-security-policy"]),
    );
    assert_eq!(v.len(), 1);
    assert_eq!(v[0].vuln_type, "Missing X-Content-Type-Options");
    assert_eq!(v[0].severity, "Low");
}

#[test]
fn plain_http_is_critical() {
    let v = VulnerabilityScanner::check_ssl("http://example.com");
    assert_eq!(v.len(), 1);
    assert_eq!(v[0].severity, "Critical");
    assert_eq!(v[0].vuln_type, "Insecure Connection (HTTP)");
    assert_eq!(v[0].location, "http://example.com");
}

#[test]
fn localhost_and_https_are_exempt() {
    assert!(VulnerabilityScanner::check_ssl("http://localhost:8080").is_empty());
    assert!(VulnerabilityScanner::check_ssl("https://example.com").is_empty());
    assert!(VulnerabilityScanner::check_ssl("http://LocalHost/app").is_empty());
    assert_eq!(VulnerabilityScanner::check_ssl("http://localhost.example.com").len(), 1);
}

#[test]
fn severity_score_is_sum_of_weights() {
    let v = vec![finding("Critical"), finding("High"), finding("Medium")];
    assert_eq!(VulnerabilityScanner::calculate_severity(&v), 21);
    let w = vec![finding("Low"), finding("Unknown"), finding("critical")];
    assert_eq!(VulnerabilityScanner::calculate_severity(&w), 1);
    assert_eq!(VulnerabilityScanner::calculate_severity(&[]), 0);
}

#[test]
fn exposed_env_file_is_reported() {
    let mut probes = all_failed();
    probes[1] = response(200, &[]);
    let v = VulnerabilityScanner::check_common_vulns("https://example.com", &probes);
    assert_eq!(v.len(), 1);
    assert_eq!(v[0].location, "https://example.com/.env");
    assert_eq!(v[0].severity, "High");
    assert_eq!(v[0].vuln_type, "Sensitive File Exposed");
    assert_eq!(v[0].description, "Sensitive file or directory accessible: /.env");
}

#[test]
fn only_success_statuses_are_reported() {
    let probes = vec![
        response(404, &[]),
        response(299, &[]),
        response(301, &[]),
        response(199, &[]),
        response(204, &[]),
        response(500, &[]),
    ];
    let v = VulnerabilityScanner::check_common_vulns("https://example.com//", &probes);
    let locations: Vec<&str> = v.iter().map(|f| f.location.as_str()).collect();
    assert_eq!(locations, vec!["https://example.com/.env", "https://example.com/admin"]);
}

#[test]
fn missing_path_outcomes_count_as_failures() {
    let v = VulnerabilityScanner::check_common_vulns("https://example.com", &vec![response(200, &[])]);
    assert_eq!(v.len(), 1);
    assert_eq!(v[0].location, "https://example.com/.git/config");
}

#[test]
fn probe_plan_lists_header_then_paths() {
    let plan = VulnerabilityScanner::probe_plan("https://example.com/").unwrap();
    assert_eq!(plan.header_probe.url, "https://example.com/");
    assert_eq!(plan.header_probe.timeout_secs, HEADER_PROBE_TIMEOUT_SECS);
    assert_eq!(HEADER_PROBE_TIMEOUT_SECS, 10);
    assert_eq!(PATH_PROBE_TIMEOUT_SECS, 5);
    let urls: Vec<&str> = plan.path_probes.iter().map(|p| p.url.as_str()).collect();
    assert_eq!(
        urls,
        vec![
            "https://example.com/.git/config",
            "https://example.com/.env",
            "https://example.com/config.php",
            "https://example.com/wp-config.php",
            "https://example.com/admin",
            "https://example.com/phpmyadmin",
        ]
    );
    assert!(plan.path_probes.iter().all(|p| p.timeout_secs == 5));
}

fn full_scan(url: &str, ms: u64) -> ScanResult {
    let mut probes = all_failed();
    probes[1] = response(200, &[]);
    VulnerabilityScanner::scan_url(url, &response(200, &["x-frame-options"]), &probes, ms).unwrap()
}

#[test]
fn scan_merges_checks_in_order() {
    let r = full_scan("http://example.com", 42);
    assert_eq!(
        r.vulnerabilities.iter().map(|f| f.vuln_type.as_str()).collect::<Vec<_>>(),
        vec![
            "Missing HSTS Header",
            "Missing X-Content-Type-Options",
            "Missing Content-Security-Policy",
            "Insecure Connection (HTTP)",
            "Sensitive File Exposed",
        ]
    );
    assert_eq!(r.severity_score, 4 + 1 + 7 + 10 + 7);
    assert_eq!(r.scan_duration_ms, 42);
}

#[test]
fn scan_is_repeatable() {
    let a = full_scan("http://example.com", 1);
    let b = full_scan("http://example.com", 900);
    let types = |r: &ScanResult| -> Vec<(String, String, String)> {
        r.vulnerabilities
            .iter()
            .map(|f| (f.vuln_type.clone(), f.severity.clone(), f.location.clone()))
            .collect()
    };
    assert_eq!(types(&a), types(&b));
    assert_eq!(a.severity_score, b.severity_score);
}

#[test]
fn unreachable_target_scans_cleanly() {
    let r = VulnerabilityScanner::scan_url(
        "https://example.com",
        &Err(ScanError::TransportError),
        &all_failed(),
        7,
    )
    .unwrap();
    assert!(r.vulnerabilities.is_empty());
    assert_eq!(r.severity_score, 0);
}

#[test]
fn mismatched_path_outcomes_are_an_internal_error() {
    let r = VulnerabilityScanner::scan_url("https://example.com", &response(200, &[]), &vec![], 0);
    assert_eq!(r.err(), Some(ScanError::InternalError));
}

#[test]
fn text_helpers() {
    assert!(starts_with("https://a", "https://"));
    assert!(!starts_with("http", "http://"));
    assert!(eq_ignore_ascii_case("X-Frame-Options", "x-frame-options"));
    assert!(!eq_ignore_ascii_case("x-frame-option", "x-frame-options"));
    assert_eq!(trim_trailing_slashes("http://a///"), "http://a");
    assert_eq!(trim_trailing_slashes("http://a"), "http://a");
    assert_eq!(host_from("http://example.com:80/x", 7), "example.com");
    assert_eq!(host_from("http://example.com", 7), "example.com");
}

#[test]
fn check_modules_run_in_fixed_order() {
    assert_eq!(
        check_modules(),
        vec![CheckModule::SecurityHeaders, CheckModule::TransportSecurity, CheckModule::SensitivePaths]
    );
    let v = CheckModule::TransportSecurity.run("http://example.com", &Err(ScanError::TransportError), &vec![]);
    assert_eq!(v.len(), 1);
    assert_eq!(v[0].severity, "Critical");
    let h = CheckModule::SecurityHeaders.run("https://example.com", &response(200, &[]), &vec![]);
    assert_eq!(h.len(), 4);
}
