//! Records of users and past scans, kept by the service around the scanner.
use vstd::prelude::*;

verus! {

/// A registered user of the service.
pub struct User {
    pub id: String,
    pub email: String,
    pub password_hash: String,
}

/// A scan as the service records it.
pub struct Scan {
    pub id: String,
    pub user_id: Option<String>,
    pub target_url: String,
    pub scan_type: String,
    pub results: Option<String>,
    pub severity_score: Option<i32>,
}

} // verus!
