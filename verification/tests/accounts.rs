use archeology::accounts::{
    health, index, login_response, lookup_response, search_user_response, user_info_response, User,
    UserResponse,
};

fn sample_user() -> User {
    User {
        username: "ada".to_string(),
        password: "opensesame".to_string(),
        rank: 3,
        email: "ada@example.org".to_string(),
    }
}

#[test]
fn health_endpoints_report_the_service() {
    let root = index();
    assert_eq!(root.status, "running");
    assert_eq!(root.api, "Login Backend API");
    assert_eq!(root.version, "1.0.0");
    let h = health();
    assert_eq!(h.status, "ok");
    assert_eq!(h.api, "Login Backend API");
    assert_eq!(h.version, "1.0.0");
}

#[test]
fn response_projection_drops_the_password() {
    let user = sample_user();
    let response = UserResponse::from(user);
    assert_eq!(response.username, "ada");
    assert_eq!(response.rank, 3);
    assert_eq!(response.email, "ada@example.org");
}

#[test]
fn login_outcomes_map_to_exact_responses() {
    let found = login_response(Ok(Some(sample_user())));
    assert!(found.success);
    assert_eq!(found.message, "Login successful");
    assert_eq!(found.data.unwrap().username, "ada");

    let missing = login_response(Ok(None));
    assert!(!missing.success);
    assert_eq!(missing.message, "Invalid username or password");
    assert!(missing.data.is_none());

    let broken = login_response(Err("disk I/O error".to_string()));
    assert!(!broken.success);
    assert_eq!(broken.message, "Database error: disk I/O error");
    assert!(broken.data.is_none());
}

#[test]
fn search_and_info_endpoints_use_their_own_messages() {
    let found = search_user_response(Ok(Some(sample_user())));
    assert_eq!(found.message, "User found");
    let missing = search_user_response(Ok(None));
    assert_eq!(missing.message, "Invalid credentials");

    let info = user_info_response(Ok(Some(sample_user())));
    assert_eq!(info.message, "User information retrieved");
    let gone = user_info_response(Ok(None));
    assert_eq!(gone.message, "User not found");
}

#[test]
fn shared_lookup_mapping_takes_the_given_messages() {
    let r = lookup_response(Ok(Some(sample_user())), "yes", "no");
    assert!(r.success);
    assert_eq!(r.message, "yes");
    let r = lookup_response(Ok(None), "yes", "no");
    assert!(!r.success);
    assert_eq!(r.message, "no");
}
