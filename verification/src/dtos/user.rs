//! The bodies of the requests and responses about a user's own profile.

use vstd::prelude::*;

verus! {

/// The body of a profile change: a new name, a new email address, or both.
#[derive(Debug, Clone)]
pub struct UpdateProfileRequest {
    pub name: Option<String>,
    pub email: Option<String>,
}

/// A user's own profile. The time is in seconds since the Unix epoch.
#[derive(Debug)]
pub struct ProfileResponse {
    pub id: String,
    pub name: String,
    pub email: String,
    pub verified: bool,
    pub role: String,
    pub created_at: i64,
    pub active_sessions: usize,
}

/// One of a user's sessions, as the user sees it. Times are in seconds
/// since the Unix epoch.
#[derive(Debug)]
pub struct SessionInfo {
    pub id: String,
    pub device_info: Option<String>,
    pub ip_address: Option<String>,
    pub location: Option<String>,
    pub created_at: i64,
    pub last_active_at: i64,
    /// Whether this is the session of the token that asked.
    pub is_current: bool,
}

} // verus!
