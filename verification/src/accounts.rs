//! The credential service's data shapes and response rules.
//!
//! The service itself is a single-table lookup behind an HTTP server; the
//! lookup and the server stay outside this crate.  What is specified here is
//! the record shapes, the password-free response projection, the health
//! report and the exact response each lookup outcome produces.

use vstd::prelude::*;
use vstd::string::StringExecFns;

verus! {

/// A stored account record.
#[derive(Clone, Debug)]
pub struct User {
    pub username: String,
    pub password: String,
    pub rank: i16,
    pub email: String,
}

/// The account record as reported to clients: everything but the password.
#[derive(Clone, Debug)]
pub struct UserResponse {
    pub username: String,
    pub rank: i16,
    pub email: String,
}

/// The response projection drops exactly the password.
pub open spec fn spec_user_response(user: User) -> UserResponse {
    UserResponse { username: user.username, rank: user.rank, email: user.email }
}

impl From<User> for UserResponse {
    fn from(user: User) -> (r: UserResponse) {
        UserResponse { username: user.username, rank: user.rank, email: user.email }
    }
}

impl vstd::std_specs::convert::FromSpecImpl<User> for UserResponse {
    open spec fn obeys_from_spec() -> bool {
        true
    }

    open spec fn from_spec(user: User) -> UserResponse {
        spec_user_response(user)
    }
}

/// The service's self-description.
pub struct HealthResponse {
    pub status: String,
    pub api: String,
    pub version: String,
}

/// The root endpoint's report.
pub fn index() -> (r: HealthResponse)
    ensures
        r.status@ == "running"@,
        r.api@ == "Login Backend API"@,
        r.version@ == "1.0.0"@,
{
    HealthResponse {
        status: String::from_str("running"),
        api: String::from_str("Login Backend API"),
        version: String::from_str("1.0.0"),
    }
}

/// The health endpoint's report.
pub fn health() -> (r: HealthResponse)
    ensures
        r.status@ == "ok"@,
        r.api@ == "Login Backend API"@,
        r.version@ == "1.0.0"@,
{
    HealthResponse {
        status: String::from_str("ok"),
        api: String::from_str("Login Backend API"),
        version: String::from_str("1.0.0"),
    }
}

/// What an authentication endpoint answers.
pub struct LoginResponse {
    pub success: bool,
    pub message: String,
    pub data: Option<UserResponse>,
}

/// Build the response for one credential-lookup outcome: a found record is
/// reported without its password under the given success message, a missing
/// one under the given failure message, and a lookup error under a message
/// carrying the error's text.
pub fn lookup_response(
    outcome: Result<Option<User>, String>,
    found_message: &str,
    missing_message: &str,
) -> (r: LoginResponse)
    ensures
        match outcome {
            Ok(Some(u)) => {
                &&& r.success
                &&& r.message@ == found_message@
                &&& r.data == Some(spec_user_response(u))
            },
            Ok(None) => {
                &&& !r.success
                &&& r.message@ == missing_message@
                &&& r.data is None
            },
            Err(e) => {
                &&& !r.success
                &&& r.message@ == "Database error: "@ + e@
                &&& r.data is None
            },
        },
{
    match outcome {
        Ok(Some(user)) => LoginResponse {
            success: true,
            message: String::from_str(found_message),
            data: Some(UserResponse::from(user)),
        },
        Ok(None) => LoginResponse {
            success: false,
            message: String::from_str(missing_message),
            data: None,
        },
        Err(e) => {
            let mut m = String::from_str("Database error: ");
            m.append(e.as_str());
            LoginResponse { success: false, message: m, data: None }
        },
    }
}

/// The login endpoint's response for a lookup outcome.
pub fn login_response(outcome: Result<Option<User>, String>) -> (r: LoginResponse)
    ensures
        match outcome {
            Ok(Some(u)) => {
                &&& r.success
                &&& r.message@ == "Login successful"@
                &&& r.data == Some(spec_user_response(u))
            },
            Ok(None) => {
                &&& !r.success
                &&& r.message@ == "Invalid username or password"@
                &&& r.data is None
            },
            Err(e) => {
                &&& !r.success
                &&& r.message@ == "Database error: "@ + e@
                &&& r.data is None
            },
        },
{
    lookup_response(outcome, "Login successful", "Invalid username or password")
}

/// The user-search endpoint's response for a lookup outcome.
pub fn search_user_response(outcome: Result<Option<User>, String>) -> (r: LoginResponse)
    ensures
        match outcome {
            Ok(Some(u)) => {
                &&& r.success
                &&& r.message@ == "User found"@
                &&& r.data == Some(spec_user_response(u))
            },
            Ok(None) => {
                &&& !r.success
                &&& r.message@ == "Invalid credentials"@
                &&& r.data is None
            },
            Err(e) => {
                &&& !r.success
                &&& r.message@ == "Database error: "@ + e@
                &&& r.data is None
            },
        },
{
    lookup_response(outcome, "User found", "Invalid credentials")
}

/// The user-info endpoint's response for a lookup outcome.
pub fn user_info_response(outcome: Result<Option<User>, String>) -> (r: LoginResponse)
    ensures
        match outcome {
            Ok(Some(u)) => {
                &&& r.success
                &&& r.message@ == "User information retrieved"@
                &&& r.data == Some(spec_user_response(u))
            },
            Ok(None) => {
                &&& !r.success
                &&& r.message@ == "User not found"@
                &&& r.data is None
            },
            Err(e) => {
                &&& !r.success
                &&& r.message@ == "Database error: "@ + e@
                &&& r.data is None
            },
        },
{
    lookup_response(outcome, "User information retrieved", "User not found")
}

} // verus!
