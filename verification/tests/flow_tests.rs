use taskhub::auth::jwt::verify_jwt_at;
use taskhub::auth::password::{hash_password, verify_password};
use taskhub::handlers::auth::{
    latest_email_log, login, login_step, verify_2fa, verify_2fa_step, verify_2fa_step_at,
    LatestEmail, LoginAction, LoginEvent, LoginRequest, TwoFactorAction, TwoFactorEvent,
    Verify2FARequest, CHALLENGE_LIFETIME_SECS,
};
use taskhub::handlers::seed::seed_users;
use taskhub::models::login_challenge::LoginChallenge;
use taskhub::models::user::User;
use taskhub::status::Status;
use taskhub::time::Timestamp;

const USER_ID: u128 = 0x2222_2222_2222_4222_8222_2222_2222_2222;
const CHALLENGE: u128 = 99;

fn user(password: &str) -> User {
    User {
        id: USER_ID,
        full_name: "James Bond".to_string(),
        email: "jamesbond@example.com".to_string(),
        hashed_password: hash_password(password).unwrap(),
        role: "staff".to_string(),
    }
}

fn at(secs: i64) -> Timestamp {
    Timestamp { secs, nanos: 0 }
}

#[test]
fn login_sends_a_six_digit_code() {
    let req = LoginRequest { email: "jamesbond@example.com".to_string(), password: "bond007".to_string() };
    let (flow, action) = login(req);
    assert!(matches!(action, LoginAction::FindUser(ref e) if e == "jamesbond@example.com"));
    let (flow, action) = login_step(flow, LoginEvent::UserFound(Some(user("bond007"))));
    let code = match action {
        LoginAction::Announce { email, code } => {
            assert_eq!(email, "jamesbond@example.com");
            code
        }
        other => panic!("unexpected {:?}", other),
    };
    let (flow, action) = login_step(flow, LoginEvent::Announced);
    let challenge = match action {
        LoginAction::StoreChallenge(challenge) => challenge,
        other => panic!("unexpected {:?}", other),
    };
    assert_eq!(code.len(), 6);
    let n: u32 = code.parse().unwrap();
    assert!((100000..999999).contains(&n));
    assert_eq!(challenge.user_id, USER_ID);
    assert_eq!(challenge.lifetime_secs, CHALLENGE_LIFETIME_SECS);
    assert_eq!(CHALLENGE_LIFETIME_SECS, 300);
    assert!(verify_password(&code, &challenge.code_hash).is_ok());
    let (flow, action) = login_step(flow, LoginEvent::Stored(true));
    match action {
        LoginAction::StoreEmailLog(log) => {
            assert_eq!(log.email, "jamesbond@example.com");
            assert_eq!(log.code, code);
        }
        other => panic!("unexpected {:?}", other),
    }
    let (_, action) = login_step(flow, LoginEvent::Stored(true));
    match action {
        LoginAction::Respond(Ok(resp)) => {
            assert_eq!(resp.message, "2FA code sent");
            assert_eq!(resp.login_challenge_id, challenge.id);
        }
        other => panic!("unexpected {:?}", other),
    }
}

#[test]
fn login_refusals() {
    let req = LoginRequest { email: "x@y".to_string(), password: "wrong".to_string() };
    let (flow, _) = login(req.clone());
    let (_, action) = login_step(flow, LoginEvent::UserFound(None));
    assert!(matches!(action, LoginAction::Respond(Err(Status::Unauthorized))));
    let (flow, _) = login(req.clone());
    let (_, action) = login_step(flow, LoginEvent::UserFound(Some(user("bond007"))));
    assert!(matches!(action, LoginAction::Respond(Err(Status::Unauthorized))));
    let (flow, _) = login(LoginRequest { email: "x@y".to_string(), password: "bond007".to_string() });
    let (flow, _) = login_step(flow, LoginEvent::UserFound(Some(user("bond007"))));
    let (flow, _) = login_step(flow, LoginEvent::Announced);
    let (_, action) = login_step(flow, LoginEvent::Stored(false));
    assert!(matches!(action, LoginAction::Respond(Err(Status::InternalServerError))));
    let (flow, _) = login(req);
    let (_, action) = login_step(flow, LoginEvent::Stored(true));
    assert!(matches!(action, LoginAction::Respond(Err(Status::InternalServerError))));
}

fn challenge(code: &str, used: bool, expires: i64) -> LoginChallenge {
    LoginChallenge {
        id: CHALLENGE,
        user_id: USER_ID,
        code_hash: hash_password(code).unwrap(),
        expires_at: at(expires),
        used,
        created_at: at(expires - 300),
    }
}

fn start(code: &str) -> taskhub::handlers::auth::TwoFactorFlow {
    let (flow, action) = verify_2fa(Verify2FARequest { challenge_id: CHALLENGE, code: code.to_string() });
    assert!(matches!(action, TwoFactorAction::FindChallenge(CHALLENGE)));
    flow
}

#[test]
fn second_factor_issues_a_token_after_marking_used() {
    let now = at(1_700_000_000);
    let flow = start("123456");
    let event = TwoFactorEvent::ChallengeFound(Some(challenge("123456", false, 1_700_000_100)));
    let (flow, action) = verify_2fa_step_at(flow, event, now);
    assert!(matches!(action, TwoFactorAction::FindUser(USER_ID)));
    let (flow, action) = verify_2fa_step_at(flow, TwoFactorEvent::UserFound(Some(user("x"))), now);
    assert!(matches!(action, TwoFactorAction::MarkUsed(CHALLENGE)));
    let (_, action) = verify_2fa_step_at(flow, TwoFactorEvent::MarkedUsed(true), now);
    let token = match action {
        TwoFactorAction::Respond(Ok(resp)) => resp.access_token,
        other => panic!("unexpected {:?}", other),
    };
    let claims = verify_jwt_at(&token, 1_700_000_000).unwrap();
    assert_eq!(claims.sub, "22222222-2222-4222-8222-222222222222");
    assert_eq!(claims.email, "jamesbond@example.com");
    assert_eq!(claims.role, "staff");
    assert_eq!(claims.exp, 1_700_086_400);
}

#[test]
fn second_factor_refusals() {
    let now = at(1_700_000_000);
    let (_, a) = verify_2fa_step_at(start("1"), TwoFactorEvent::ChallengeFound(None), now);
    assert!(matches!(a, TwoFactorAction::Respond(Err(Status::NotFound))));
    let used = TwoFactorEvent::ChallengeFound(Some(challenge("123456", true, 1_700_000_100)));
    let (_, a) = verify_2fa_step_at(start("123456"), used, now);
    assert!(matches!(a, TwoFactorAction::Respond(Err(Status::BadRequest))));
    let expired = TwoFactorEvent::ChallengeFound(Some(challenge("123456", false, 1_699_999_999)));
    let (_, a) = verify_2fa_step_at(start("123456"), expired, now);
    assert!(matches!(a, TwoFactorAction::Respond(Err(Status::BadRequest))));
    let wrong = TwoFactorEvent::ChallengeFound(Some(challenge("123456", false, 1_700_000_100)));
    let (_, a) = verify_2fa_step_at(start("654321"), wrong, now);
    assert!(matches!(a, TwoFactorAction::Respond(Err(Status::Unauthorized))));
    let ok = TwoFactorEvent::ChallengeFound(Some(challenge("123456", false, 1_700_000_100)));
    let (flow, _) = verify_2fa_step_at(start("123456"), ok, now);
    let (_, a) = verify_2fa_step_at(flow, TwoFactorEvent::UserFound(None), now);
    assert!(matches!(a, TwoFactorAction::Respond(Err(Status::NotFound))));
    let ok = TwoFactorEvent::ChallengeFound(Some(challenge("123456", false, 1_700_000_100)));
    let (flow, _) = verify_2fa_step_at(start("123456"), ok, now);
    let (flow, _) = verify_2fa_step_at(flow, TwoFactorEvent::UserFound(Some(user("x"))), now);
    let (_, a) = verify_2fa_step_at(flow, TwoFactorEvent::MarkedUsed(false), now);
    assert!(matches!(a, TwoFactorAction::Respond(Err(Status::InternalServerError))));
}

#[test]
fn expiry_at_the_same_instant_still_passes() {
    let now = Timestamp { secs: 1_700_000_000, nanos: 5 };
    let c = LoginChallenge { expires_at: now, ..challenge("123456", false, 0) };
    let (_, a) = verify_2fa_step_at(start("123456"), TwoFactorEvent::ChallengeFound(Some(c)), now);
    assert!(matches!(a, TwoFactorAction::FindUser(USER_ID)));
    let later = Timestamp { secs: 1_700_000_000, nanos: 6 };
    let c = LoginChallenge { expires_at: now, ..challenge("123456", false, 0) };
    let (_, a) = verify_2fa_step_at(start("123456"), TwoFactorEvent::ChallengeFound(Some(c)), later);
    assert!(matches!(a, TwoFactorAction::Respond(Err(Status::BadRequest))));
}

#[test]
fn second_factor_against_the_clock() {
    let far = TwoFactorEvent::ChallengeFound(Some(challenge("123456", false, i64::MAX / 2)));
    let (_, a) = verify_2fa_step(start("123456"), far);
    assert!(matches!(a, TwoFactorAction::FindUser(USER_ID)));
}

#[test]
fn latest_code_or_not_found() {
    assert_eq!(latest_email_log(None).unwrap_err(), Status::NotFound);
    let row = LatestEmail { email: "a@b".to_string(), code: "123456".to_string() };
    let r = latest_email_log(Some(row)).unwrap();
    assert_eq!(r.email, "a@b");
    assert_eq!(r.code, "123456");
}

#[test]
fn seeding_builds_the_two_accounts() {
    let users = seed_users();
    assert_eq!(users.len(), 2);
    assert_eq!(users[0].full_name, "Admin");
    assert_eq!(users[0].email, "admin@example.com");
    assert_eq!(users[0].role, "admin");
    assert!(verify_password("admin123", &users[0].hashed_password).is_ok());
    assert!(users[0].hashed_password.starts_with("$argon2id$v=19$m=19456,t=2,p=1$"));
    assert_eq!(users[1].full_name, "James Bond");
    assert_eq!(users[1].email, "jamesbond@example.com");
    assert_eq!(users[1].role, "staff");
    assert!(verify_password("bond007", &users[1].hashed_password).is_ok());
    assert_ne!(users[0].id, users[1].id);
}

#[test]
fn announce_comes_before_the_challenge_is_stored() {
    let (flow, _) = login(LoginRequest { email: "x@y".to_string(), password: "bond007".to_string() });
    let (flow, action) = login_step(flow, LoginEvent::UserFound(Some(user("bond007"))));
    assert!(matches!(action, LoginAction::Announce { .. }));
    let (_, action) = login_step(flow, LoginEvent::Stored(true));
    assert!(matches!(action, LoginAction::Respond(Err(Status::InternalServerError))));
}

#[test]
fn login_then_second_factor_gives_a_token() {
    let (flow, _) = login(LoginRequest { email: "jamesbond@example.com".to_string(), password: "bond007".to_string() });
    let (flow, action) = login_step(flow, LoginEvent::UserFound(Some(user("bond007"))));
    let code = match action {
        LoginAction::Announce { code, .. } => code,
        other => panic!("unexpected {:?}", other),
    };
    let (_, action) = login_step(flow, LoginEvent::Announced);
    let stored = match action {
        LoginAction::StoreChallenge(c) => c,
        other => panic!("unexpected {:?}", other),
    };
    let now = at(1_700_000_000);
    let found = LoginChallenge {
        id: stored.id,
        user_id: stored.user_id,
        code_hash: stored.code_hash,
        expires_at: at(1_700_000_000 + stored.lifetime_secs),
        used: false,
        created_at: now,
    };
    let (flow, action) = verify_2fa(Verify2FARequest { challenge_id: stored.id, code });
    assert!(matches!(action, TwoFactorAction::FindChallenge(id) if id == stored.id));
    let (flow, _) = verify_2fa_step_at(flow, TwoFactorEvent::ChallengeFound(Some(found)), now);
    let (flow, action) = verify_2fa_step_at(flow, TwoFactorEvent::UserFound(Some(user("x"))), now);
    assert!(matches!(action, TwoFactorAction::MarkUsed(id) if id == stored.id));
    let (flow, action) = verify_2fa_step_at(flow, TwoFactorEvent::MarkedUsed(true), now);
    let token = match action {
        TwoFactorAction::Respond(Ok(resp)) => resp.access_token,
        other => panic!("unexpected {:?}", other),
    };
    assert_eq!(verify_jwt_at(&token, 1_700_000_000).unwrap().email, "jamesbond@example.com");
    let (_, action) = verify_2fa_step_at(flow, TwoFactorEvent::MarkedUsed(true), now);
    assert!(matches!(action, TwoFactorAction::Respond(Err(Status::InternalServerError))));
}
