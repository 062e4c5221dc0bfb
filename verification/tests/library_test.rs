use task_api::cache::TaskCache;
use task_api::clock::{add_seconds, format_rfc3339, parse_rfc3339, Timestamp};
use task_api::errors::AppError;
use task_api::handlers::auth::{authenticate, check_challenge, check_challenge_at, check_challenge_claimed, issue_token, start_login};
use task_api::handlers::dev::{latest_email_answer, LatestEmailAnswer};
use task_api::handlers::seed::{seed_accounts, seed_response, seed_user};
use task_api::handlers::tasks::{
    assignment_target, cached_view, finish_assignment, fresh_view, new_task_for, record_task_update,
};
use task_api::middleware::auth::{bearer_token, extract_claims};
use task_api::models::{CachedTasks, CreateTaskRequest, EmailLog, JwtClaims, LoginChallenge, Task, User};
use task_api::services::email::{verification_body, verification_email};
use task_api::services::jwt::{claims_json, create_jwt, create_jwt_at, jwt_expiry, verify_jwt};
use task_api::services::password::{hash_password, verify_password};
use task_api::services::two_fa::{generate_code, hash_code, verify_code};
use task_api::text::decimal_string;

fn seeded(email: &str) -> User {
    for account in seed_accounts() {
        if account.email == email {
            return seed_user(false, &account).unwrap().unwrap();
        }
    }
    panic!("no such seed account");
}

fn claims(role: &str) -> JwtClaims {
    JwtClaims { sub: "u-1".to_string(), email: "a@example.com".to_string(), role: role.to_string(), exp: 1 }
}

#[test]
fn decimal_text_of_numbers() {
    assert_eq!(decimal_string(0), "0");
    assert_eq!(decimal_string(7), "7");
    assert_eq!(decimal_string(10), "10");
    assert_eq!(decimal_string(999_999), "999999");
    assert_eq!(decimal_string(u64::MAX), u64::MAX.to_string());
}

#[test]
fn hash_code_is_sha256_hex() {
    assert_eq!(
        hash_code("123456"),
        "8d969eef6ecad3c29a3a629280e686cf0c3f5d5a86aff3ca12020c923adc6c92"
    );
    assert_eq!(
        hash_code(""),
        "e3b0c44298fc1c149afbf4c8996fb92427ae41e4649b934ca495991b7852b855"
    );
    assert!(verify_code("123456", "8d969eef6ecad3c29a3a629280e686cf0c3f5d5a86aff3ca12020c923adc6c92"));
    assert!(!verify_code("123456", "8D969EEF6ECAD3C29A3A629280E686CF0C3F5D5A86AFF3CA12020C923ADC6C92"));
}

#[test]
fn generated_codes_are_six_digits() {
    for _ in 0..200 {
        let code = generate_code();
        assert_eq!(code.len(), 6);
        let n: u32 = code.parse().unwrap();
        assert!((100_000..=999_999).contains(&n));
    }
}

#[test]
fn error_statuses_types_and_messages() {
    let cases = vec![
        (AppError::Database("disk".to_string()), 500, "internal_error", "Database error: disk"),
        (AppError::NotFound("x".to_string()), 404, "not_found", "Not found: x"),
        (AppError::Unauthorized("y".to_string()), 401, "unauthorized", "Unauthorized: y"),
        (AppError::Forbidden("z".to_string()), 403, "forbidden", "Forbidden: z"),
        (AppError::BadRequest("w".to_string()), 400, "bad_request", "Bad request: w"),
        (AppError::Internal("v".to_string()), 500, "internal_error", "Internal error: v"),
    ];
    for (e, status, kind, message) in cases {
        assert_eq!(e.status_code(), status);
        assert_eq!(e.error_type(), kind);
        assert_eq!(e.message(), message);
        let body = e.error_response();
        assert_eq!(body.error, kind);
        assert_eq!(body.message, message);
    }
}

#[test]
fn rfc3339_text_and_arithmetic() {
    let epoch = Timestamp { secs: 0, nanos: 0 };
    assert_eq!(format_rfc3339(epoch).unwrap(), "1970-01-01T00:00:00+00:00");
    let t = Timestamp { secs: 1_700_000_000, nanos: 123_000_000 };
    let text = format_rfc3339(t).unwrap();
    assert_eq!(text, "2023-11-14T22:13:20.123+00:00");
    assert_eq!(parse_rfc3339(&text), Some(t));
    assert_eq!(parse_rfc3339("2023-11-14T23:13:20+01:00"), Some(Timestamp { secs: 1_700_000_000, nanos: 0 }));
    assert_eq!(parse_rfc3339("not a date"), None);
    assert_eq!(add_seconds(t, 300), Some(Timestamp { secs: 1_700_000_300, nanos: 123_000_000 }));
    assert_eq!(add_seconds(t, i64::MAX), None);
    assert_eq!(format_rfc3339(Timestamp { secs: i64::MAX, nanos: 0 }), None);
}

#[test]
fn new_records_carry_their_fields() {
    let u = User::new("Full", "f@example.com", "h", "staff");
    assert_eq!((u.full_name.as_str(), u.email.as_str(), u.hashed_password.as_str(), u.role.as_str()), ("Full", "f@example.com", "h", "staff"));
    assert_eq!(u.id.len(), 36);
    assert_eq!(u.created_at, u.updated_at);
    assert!(parse_rfc3339(&u.created_at).is_some());

    let t = Task::new("T", Some("D"), "high", "creator");
    assert_eq!(t.status, "todo");
    assert_eq!(t.description.as_deref(), Some("D"));
    assert_eq!(t.priority, "high");
    assert_eq!(t.created_by_id, "creator");
    assert!(t.assigned_to_id.is_none());
    let t2 = Task::new("T", None, "low", "creator");
    assert!(t2.description.is_none());

    let log = EmailLog::new("to@example.com", "S", "B");
    assert_eq!((log.to_email.as_str(), log.subject.as_str(), log.body.as_str()), ("to@example.com", "S", "B"));
    assert_eq!(log.id.len(), 36);
}

#[test]
fn challenge_expiry_rules() {
    let c = LoginChallenge::new("user-1", "hash", 5).unwrap();
    assert_eq!(c.used, 0);
    assert_eq!(c.user_id, "user-1");
    assert_eq!(c.code_hash, "hash");
    let created = parse_rfc3339(&c.created_at).unwrap();
    let expires = parse_rfc3339(&c.expires_at).unwrap();
    assert_eq!(expires.secs, created.secs + 300);
    assert_eq!(expires.nanos, created.nanos);
    assert!(!c.is_expired());
    let zero = Timestamp { secs: 0, nanos: 0 };
    assert!(!c.is_expired_at(zero, expires));
    assert!(c.is_expired_at(zero, Timestamp { secs: expires.secs, nanos: expires.nanos + 1 }));
    assert!(c.is_expired_at(zero, Timestamp { secs: expires.secs + 1, nanos: 0 }));
    // An expiry that does not read as an instant counts as an earlier clock reading.
    let mut odd = c.clone();
    odd.expires_at = "garbage".to_string();
    let t = Timestamp { secs: 1000, nanos: 5 };
    assert!(!odd.is_expired_at(t, t));
    assert!(odd.is_expired_at(t, Timestamp { secs: 1000, nanos: 6 }));
    assert!(odd.is_expired());
    // Negative expiry: already expired.
    let past = LoginChallenge::new("user-1", "hash", -1).unwrap();
    assert!(past.is_expired());
    // Beyond chrono's range.
    assert!(LoginChallenge::new("user-1", "hash", i64::MAX).is_none());
    assert!(LoginChallenge::new("user-1", "hash", i64::MAX / 60).is_none());
}

fn bad_request_message(r: Result<LoginChallenge, AppError>) -> String {
    match r {
        Err(AppError::BadRequest(m)) => m,
        other => panic!("unexpected {:?}", other),
    }
}

#[test]
fn challenge_redemption_rules() {
    let code = "123456";
    let c = LoginChallenge::new("user-1", &hash_code(code), 5).unwrap();
    let expires = parse_rfc3339(&c.expires_at).unwrap();
    let before = Timestamp { secs: expires.secs - 10, nanos: 0 };
    let after = Timestamp { secs: expires.secs + 10, nanos: 0 };

    let zero = Timestamp { secs: 0, nanos: 0 };
    assert_eq!(bad_request_message(check_challenge_at(None, code, zero, before)), "Challenge not found");
    let ok = check_challenge_at(Some(c.clone()), code, zero, before).unwrap();
    assert_eq!(ok.id, c.id);
    assert!(check_challenge(Some(c.clone()), code).is_ok());
    match check_challenge_at(Some(c.clone()), "654321", zero, before) {
        Err(AppError::Unauthorized(m)) => assert_eq!(m, "Invalid verification code"),
        other => panic!("unexpected {:?}", other),
    }
    assert_eq!(bad_request_message(check_challenge_at(Some(c.clone()), code, zero, after)), "Code has expired");
    let mut used = c.clone();
    used.mark_used();
    assert_eq!(used.used, 1);
    assert_eq!(bad_request_message(check_challenge_at(Some(used), code, zero, before)), "Code has already been used");
    match check_challenge_claimed(0) {
        Err(AppError::BadRequest(m)) => assert_eq!(m, "Code has already been used"),
        other => panic!("unexpected {:?}", other),
    }
    assert!(check_challenge_claimed(1).is_ok());
}

#[test]
fn login_flow_end_to_end() {
    let staff = seeded("jamesbond@example.com");
    let started = start_login(Some(staff.clone()), "Bond007!", 5).unwrap();
    assert_eq!(started.user.id, staff.id);
    assert_eq!(started.challenge.user_id, staff.id);
    assert_eq!(started.challenge.code_hash, hash_code(&started.code));
    assert_eq!(started.email.to_email, "jamesbond@example.com");
    assert_eq!(started.email.subject, "Your verification code");
    assert!(started.email.body.contains(&started.code));
    assert_eq!(
        started.response.message,
        "Verification code sent to jamesbond@example.com. Check console or GET /dev/email-logs/latest"
    );
    let redeemed = check_challenge(Some(started.challenge.clone()), &started.code).unwrap();
    let answer = issue_token(&staff, "secret", 24).unwrap();
    assert_eq!(answer.token_type, "Bearer");
    let claims_text = verify_jwt(&answer.access_token, "secret").unwrap();
    assert!(claims_text.starts_with(&format!("{{\"sub\":\"{}\",\"email\":\"jamesbond@example.com\",\"role\":\"staff\",\"exp\":", staff.id)));
    assert_eq!(redeemed.id, started.challenge.id);

    match start_login(None, "x", 5) {
        Err(AppError::Unauthorized(m)) => assert_eq!(m, "Invalid email or password"),
        other => panic!("unexpected {:?}", other.map(|s| s.code)),
    }
    let mut broken = staff.clone();
    broken.hashed_password = "not a phc string".to_string();
    match authenticate(Some(broken), "Bond007!") {
        Err(e) => assert_eq!(e.status_code(), 500),
        Ok(_) => panic!("a broken hash must not authenticate"),
    }
}

#[test]
fn password_hash_and_verify() {
    let h = hash_password("pw").unwrap();
    assert!(h.starts_with("$argon2"));
    assert_eq!(verify_password("pw", &h).unwrap(), true);
    assert_eq!(verify_password("other", &h).unwrap(), false);
    assert!(matches!(verify_password("pw", "nonsense"), Err(AppError::Internal(_))));
}

#[test]
fn jwt_claims_text_and_round_trip() {
    let c = JwtClaims {
        sub: "id\"1".to_string(),
        email: "a@b.c".to_string(),
        role: "admin".to_string(),
        exp: 9999999999,
    };
    assert_eq!(
        claims_json(&c),
        "{\"sub\":\"id\\\"1\",\"email\":\"a@b.c\",\"role\":\"admin\",\"exp\":9999999999}"
    );
    let token = create_jwt("u1", "a@b.c", "admin", "s3cret", 1).unwrap();
    assert_eq!(token.split('.').count(), 3);
    let back = verify_jwt(&token, "s3cret").unwrap();
    assert!(back.starts_with("{\"sub\":\"u1\",\"email\":\"a@b.c\",\"role\":\"admin\",\"exp\":"));
    match verify_jwt(&token, "other-secret") {
        Err(AppError::Unauthorized(m)) => assert!(m.starts_with("Invalid token: ")),
        other => panic!("unexpected {:?}", other),
    }
    // A token that expired long ago is refused.
    let old = create_jwt_at("u1", "a@b.c", "admin", "s3cret", 1, Timestamp { secs: 1000, nanos: 0 }).unwrap();
    assert!(verify_jwt(&old, "s3cret").is_err());
}

#[test]
fn json_string_escaping_in_claims() {
    let c = JwtClaims {
        sub: "a\\b\u{1}\t\n\r\u{8}\u{c}\u{1f}é/".to_string(),
        email: "".to_string(),
        role: "r".to_string(),
        exp: 0,
    };
    assert_eq!(
        claims_json(&c),
        "{\"sub\":\"a\\\\b\\u0001\\t\\n\\r\\b\\f\\u001fé/\",\"email\":\"\",\"role\":\"r\",\"exp\":0}"
    );
}

#[test]
fn latest_email_answers() {
    match latest_email_answer(None) {
        LatestEmailAnswer::NoneSent { message } => assert_eq!(message, "No emails have been sent yet."),
        other => panic!("unexpected {:?}", other),
    }
    let log = EmailLog::new("to@example.com", "S", "B");
    match latest_email_answer(Some(log.clone())) {
        LatestEmailAnswer::Found { id, to, subject, body, sent_at, note } => {
            assert_eq!((id, to, subject, body, sent_at), (log.id, log.to_email, log.subject, log.body, log.sent_at));
            assert_eq!(note, "This endpoint is for local development only.");
        }
        other => panic!("unexpected {:?}", other),
    }
}

#[test]
fn jwt_expiry_arithmetic() {
    let t = Timestamp { secs: 1000, nanos: 5 };
    assert_eq!(jwt_expiry(t, 24), Some(1000 + 24 * 3600));
    assert_eq!(jwt_expiry(t, 0), Some(1000));
    // Hours are taken as a signed number: u64::MAX reads as -1 hour.
    assert_eq!(jwt_expiry(t, u64::MAX), Some((1000i64 - 3600) as usize));
    assert_eq!(jwt_expiry(t, 1 << 62), None);
    assert!(matches!(create_jwt_at("u", "e", "r", "s", 1 << 62, t), Err(AppError::Internal(_))));
}

#[test]
fn bearer_header_rules() {
    match bearer_token(None) {
        Err(AppError::Unauthorized(m)) => assert_eq!(m, "Missing Authorization header"),
        other => panic!("unexpected {:?}", other),
    }
    match bearer_token(Some("Token abc")) {
        Err(AppError::Unauthorized(m)) => assert_eq!(m, "Authorization header must start with 'Bearer '"),
        other => panic!("unexpected {:?}", other),
    }
    assert_eq!(bearer_token(Some("Bearer abc.def")).unwrap(), "abc.def");
    assert_eq!(bearer_token(Some("Bearer ")).unwrap(), "");
    assert!(matches!(extract_claims(None, "s"), Err(AppError::Unauthorized(_))));
    let token = create_jwt("u9", "e@x.y", "staff", "s", 2).unwrap();
    let header = format!("Bearer {}", token);
    let text = extract_claims(Some(&header), "s").unwrap();
    assert!(text.contains("\"sub\":\"u9\""));
}

#[test]
fn task_creation_rules() {
    let req = |priority: Option<&str>| CreateTaskRequest {
        title: "Write docs".to_string(),
        description: Some("all of them".to_string()),
        priority: priority.map(|p| p.to_string()),
    };
    let t = new_task_for(&claims("admin"), &req(None)).unwrap();
    assert_eq!(t.priority, "medium");
    assert_eq!(t.title, "Write docs");
    assert_eq!(t.description.as_deref(), Some("all of them"));
    assert_eq!(t.created_by_id, "u-1");
    assert_eq!(t.status, "todo");
    assert_eq!(new_task_for(&claims("admin"), &req(Some("high"))).unwrap().priority, "high");
    match new_task_for(&claims("admin"), &req(Some("urgent"))) {
        Err(AppError::BadRequest(m)) => assert_eq!(m, "priority must be 'low', 'medium', or 'high'"),
        other => panic!("unexpected {:?}", other),
    }
    match new_task_for(&claims("staff"), &req(Some("urgent"))) {
        Err(e) => assert_eq!(e.status_code(), 403),
        Ok(_) => panic!("staff must not create tasks"),
    }
}

#[test]
fn assignment_rules() {
    match assignment_target(None, "ghost@example.com") {
        Err(AppError::NotFound(m)) => assert_eq!(m, "User 'ghost@example.com' not found"),
        other => panic!("unexpected {:?}", other),
    }
    let u = User::new("N", "n@example.com", "h", "staff");
    assert_eq!(assignment_target(Some(u.clone()), "n@example.com").unwrap().id, u.id);
    let mut cache = TaskCache::new();
    cache.set("target", CachedTasks { tasks: vec![], user_email: "n@example.com".into(), user_role: "staff".into() });
    // A missing first task leaves the cache as it was.
    match record_task_update(&mut cache, "target", "t-9", 0, 0) {
        Err(AppError::NotFound(m)) => assert_eq!(m, "Task 't-9' not found"),
        other => panic!("unexpected {:?}", other),
    }
    assert!(cache.get("target").is_some());
    assert_eq!(record_task_update(&mut cache, "target", "t-1", 1, 0).unwrap(), 1);
    assert!(cache.get("target").is_some());
    // A missing task after others were moved drops the target's cached list.
    assert!(record_task_update(&mut cache, "target", "t-9", 0, 1).is_err());
    assert!(cache.get("target").is_none());

    cache.set("target", CachedTasks { tasks: vec![], user_email: "n@example.com".into(), user_role: "staff".into() });
    cache.set("other", CachedTasks { tasks: vec![], user_email: "o@example.com".into(), user_role: "staff".into() });
    let message = finish_assignment(&mut cache, "target", "n@example.com", 3);
    assert_eq!(message, "3 task(s) assigned to n@example.com");
    assert!(cache.get("target").is_none());
    assert!(cache.get("other").is_some());
}

#[test]
fn my_tasks_view_miss_then_hit() {
    let user = User::new("James Bond", "jamesbond@example.com", "h", "staff");
    let mut tasks = vec![Task::new("Task high", None, "high", "admin"), Task::new("Task medium", None, "medium", "admin")];
    tasks[0].assigned_to_id = Some(user.id.clone());
    let mut cache = TaskCache::new();
    assert!(cached_view(&cache, &user.id).is_none());
    let first = fresh_view(&mut cache, &user.id, &user, &tasks);
    assert!(!first.cache.hit);
    assert_eq!(first.summary.total_assigned_tasks, 2);
    assert_eq!(first.user.email, "jamesbond@example.com");
    assert_eq!(first.user.role, "staff");
    assert_eq!(first.tasks[0].title, "Task high");
    assert_eq!(first.tasks[1].assigned_to.as_deref(), Some("jamesbond@example.com"));
    let second = cached_view(&cache, &user.id).expect("second call must hit");
    assert!(second.cache.hit);
    assert_eq!(second.summary.total_assigned_tasks, 2);
    assert_eq!(second.user.email, first.user.email);
    assert_eq!(second.tasks.len(), first.tasks.len());
    for (a, b) in first.tasks.iter().zip(second.tasks.iter()) {
        assert_eq!((&a.id, &a.title, &a.status, &a.priority, &a.assigned_to), (&b.id, &b.title, &b.status, &b.priority, &b.assigned_to));
    }
    // Another user's view still misses.
    assert!(cached_view(&cache, "someone-else").is_none());
}

#[test]
fn verification_email_text() {
    assert_eq!(
        verification_body("123456"),
        "Hello,\n\nYour two-factor authentication code is: 123456\n\nIt expires in 5 minutes.\n\nDo not share this code."
    );
    let log = verification_email("to@example.com", "123456");
    assert_eq!(log.id.len(), 36);
    assert!(parse_rfc3339(&log.sent_at).is_some());
    assert_eq!(log.subject, "Your verification code");
    assert_eq!(log.to_email, "to@example.com");
}

#[test]
fn seed_accounts_and_answer() {
    let accounts = seed_accounts();
    assert_eq!(accounts.len(), 2);
    assert_eq!((accounts[0].email, accounts[0].role), ("admin@example.com", "admin"));
    assert_eq!((accounts[1].email, accounts[1].role), ("jamesbond@example.com", "staff"));
    let admin = seeded("admin@example.com");
    assert_eq!(admin.full_name, "Admin User");
    assert_eq!(verify_password("Admin1234!", &admin.hashed_password).unwrap(), true);
    let r = seed_response();
    assert_eq!(r.message, "Seed complete. Users created (or already existed).");
    assert_eq!(r.admin_email, "admin@example.com");
    assert_eq!(r.staff_email, "jamesbond@example.com");
}

fn is_uuid_v4(s: &str) -> bool {
    let chars: Vec<char> = s.chars().collect();
    chars.len() == 36
        && chars.iter().enumerate().all(|(i, c)| {
            if i == 8 || i == 13 || i == 18 || i == 23 {
                *c == '-'
            } else {
                c.is_ascii_digit() || ('a'..='f').contains(c)
            }
        })
        && chars[14] == '4'
        && "89ab".contains(chars[19])
}

#[test]
fn new_identifiers_are_uuid_v4_text() {
    let u = User::new("Full", "f@example.com", "h", "staff");
    assert!(is_uuid_v4(&u.id));
    let t = Task::new("T", None, "low", "creator");
    assert!(is_uuid_v4(&t.id));
    assert_ne!(t.id, Task::new("T", None, "low", "creator").id);
    let c = LoginChallenge::new("user-1", "hash", 5).unwrap();
    assert!(is_uuid_v4(&c.id));
    let log = EmailLog::new("to@example.com", "S", "B");
    assert!(is_uuid_v4(&log.id));
}

#[test]
fn stored_password_hash_is_argon2id_phc() {
    let h = hash_password("Admin1234!").unwrap();
    assert!(h.starts_with("$argon2id$v=19$"));
    assert_ne!(h, "Admin1234!");
    let admin = seeded("admin@example.com");
    assert!(admin.hashed_password.starts_with("$argon2id$v=19$"));
    assert_ne!(admin.hashed_password, "Admin1234!");
    let staff = seeded("jamesbond@example.com");
    assert_ne!(staff.hashed_password, "Bond007!");
}

#[test]
fn chrono_range_edges() {
    let last = Timestamp { secs: 8_210_266_876_799, nanos: 0 };
    let first = Timestamp { secs: -8_334_601_228_800, nanos: 0 };
    assert!(format_rfc3339(last).is_some());
    assert!(format_rfc3339(first).is_some());
    assert_eq!(format_rfc3339(Timestamp { secs: 8_210_266_876_800, nanos: 0 }), None);
    assert_eq!(format_rfc3339(Timestamp { secs: -8_334_601_228_801, nanos: 0 }), None);
    // Beyond the year 9999 the text is written but does not read back.
    let far = Timestamp { secs: 300_000_000_000, nanos: 0 };
    let text = format_rfc3339(far).unwrap();
    assert_eq!(parse_rfc3339(&text), None);
    assert_eq!(add_seconds(Timestamp { secs: 8_210_266_876_000, nanos: 7 }, 799), Some(Timestamp { secs: 8_210_266_876_799, nanos: 7 }));
    assert_eq!(add_seconds(Timestamp { secs: 8_210_266_876_000, nanos: 7 }, 800), None);
    // A challenge and a token far in the future, within chrono's range.
    let now = Timestamp { secs: 300_000_000_000, nanos: 0 };
    assert!(LoginChallenge::new_at("u", "h", 5, now).is_some());
    assert!(LoginChallenge::new_at("u", "h", 5, Timestamp { secs: 8_210_266_876_700, nanos: 0 }).is_none());
    assert_eq!(jwt_expiry(now, 1_000_000_000), Some(300_000_000_000 + 3_600_000_000_000));
    assert!(create_jwt_at("u", "e", "r", "s", 1_000_000_000, now).is_ok());
    assert!(create_jwt("u", "e", "r", "s", 1_000_000_000).is_ok());
}

#[test]
fn bearer_prefix_is_matched_by_characters() {
    assert_eq!(bearer_token(Some("Bearer é.ü")).unwrap(), "é.ü");
    assert!(matches!(bearer_token(Some("bearer abc")), Err(AppError::Unauthorized(_))));
    assert!(matches!(bearer_token(Some("Bearer")), Err(AppError::Unauthorized(_))));
    assert!(matches!(bearer_token(Some("Béarer abc")), Err(AppError::Unauthorized(_))));
}

#[test]
fn expiry_stays_passed_once_passed() {
    let created = Timestamp { secs: 1_700_000_000, nanos: 500 };
    let c = LoginChallenge::new_at("u", "h", 5, created).unwrap();
    let zero = Timestamp { secs: 0, nanos: 0 };
    assert!(!c.is_expired_at(zero, Timestamp { secs: 1_700_000_300, nanos: 500 }));
    for later in [1_700_000_301i64, 1_700_003_600, 1_800_000_000] {
        assert!(c.is_expired_at(zero, Timestamp { secs: later, nanos: 0 }));
    }
    assert!(c.is_expired_at(zero, Timestamp { secs: 1_700_000_300, nanos: 501 }));
}
