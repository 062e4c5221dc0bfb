use task_api::cache::TaskCache;
use task_api::errors::AppError;
use task_api::handlers::auth::start_login;
use task_api::handlers::seed::{seed_accounts, seed_user};
use task_api::middleware::auth::require_admin;
use task_api::models::{CachedTasks, JwtClaims, TaskResponse, User};
use task_api::services::two_fa::{generate_code, hash_code, verify_code};

fn seeded_users() -> Vec<User> {
    let mut users = Vec::new();
    for account in seed_accounts() {
        if let Some(u) = seed_user(false, &account).expect("seed should succeed") {
            users.push(u);
        }
    }
    users
}

#[test]
fn test_seed_creates_users() {
    let users = seeded_users();
    assert_eq!(users.len(), 2, "Should have created exactly 2 users");
    // A second seed finds both accounts and creates nothing.
    for account in seed_accounts() {
        assert!(seed_user(true, &account).unwrap().is_none());
    }
}

#[test]
fn test_login_returns_challenge_not_jwt() {
    let users = seeded_users();
    let admin = users.into_iter().find(|u| u.email == "admin@example.com").unwrap();
    let started = start_login(Some(admin), "Admin1234!", 5).expect("login should start");
    let id = &started.response.login_challenge_id;
    assert!(!id.is_empty(), "Must return a challenge ID");
    assert_eq!(id.len(), 36);
    assert!(!id.contains('.'), "Must NOT return a JWT at this stage");
    assert_eq!(started.challenge.used, 0);
}

#[test]
fn test_wrong_password_rejected() {
    let users = seeded_users();
    let admin = users.into_iter().find(|u| u.email == "admin@example.com").unwrap();
    let result = start_login(Some(admin), "wrongpassword", 5);
    match result {
        Err(e) => assert_eq!(e.status_code(), 401, "Wrong password must be 401"),
        Ok(_) => panic!("Wrong password must be 401"),
    }
}

#[test]
fn test_staff_cannot_create_task() {
    let staff_claims = JwtClaims {
        sub: "some-id".to_string(),
        email: "jamesbond@example.com".to_string(),
        role: "staff".to_string(),
        exp: 9999999999,
    };

    let result = require_admin(&staff_claims);
    assert!(result.is_err(), "Staff must be forbidden from admin actions");

    let admin_claims = JwtClaims {
        sub: "admin-id".to_string(),
        email: "admin@example.com".to_string(),
        role: "admin".to_string(),
        exp: 9999999999,
    };

    let result = require_admin(&admin_claims);
    assert!(result.is_ok(), "Admin must pass the role check");
}

#[test]
fn test_2fa_code_hashing_and_verify() {
    let code = generate_code();
    assert_eq!(code.len(), 6, "OTP must be 6 digits");

    let hash = hash_code(&code);
    assert!(verify_code(&code, &hash), "Correct code must verify");
    assert!(!verify_code("000000", &hash), "Wrong code must not verify");
}

#[test]
fn test_cache_hit_miss_invalidate() {
    let mut cache = TaskCache::new();
    let user_id = "test-user-1";

    // Miss
    assert!(cache.get(user_id).is_none(), "Should be a miss initially");

    // Set
    cache.set(
        user_id,
        CachedTasks {
            tasks: vec![TaskResponse {
                id: "t1".to_string(),
                title: "Test task".to_string(),
                status: "todo".to_string(),
                priority: "high".to_string(),
                assigned_to: Some("jamesbond@example.com".to_string()),
            }],
            user_email: "jamesbond@example.com".to_string(),
            user_role: "staff".to_string(),
        },
    );

    // Hit
    assert!(cache.get(user_id).is_some(), "Should be a hit after set");

    // Invalidate
    cache.invalidate(user_id);
    assert!(cache.get(user_id).is_none(), "Should be miss after invalidation");
}

#[test]
fn staff_error_is_forbidden_with_message() {
    let claims = JwtClaims {
        sub: "x".to_string(),
        email: "x@example.com".to_string(),
        role: "Admin".to_string(),
        exp: 1,
    };
    match require_admin(&claims) {
        Err(AppError::Forbidden(m)) => assert_eq!(m, "Only admins can perform this action"),
        other => panic!("unexpected {:?}", other),
    }
}
