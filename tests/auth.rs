use argon2::PasswordVerifier;
use claw_pen::auth::{
    bearer_token, hash_admin_password, is_public_route, query_token_of, validate_ws_token,
    AuthError, AuthManager, AuthStatus, Claims, ACCESS_TOKEN_SECONDS,
};

fn manager(admin: bool, registration: bool) -> AuthManager {
    let hash = if admin { Some("$argon2id$stub".to_string()) } else { None };
    AuthManager::from_parts("/tmp/auth".to_string(), vec![9u8; 32], hash, registration)
}

fn claims(token_type: &str, now: i64) -> Claims {
    Claims { sub: "admin".to_string(), iat: now, exp: now + 600, token_type: token_type.to_string() }
}

#[test]
fn status_reports_admin_and_registration() {
    assert!(!manager(false, false).has_admin());
    assert_eq!(
        manager(false, false).status(),
        AuthStatus { auth_enabled: true, has_admin: false, registration_enabled: true }
    );
    assert_eq!(
        manager(true, false).status(),
        AuthStatus { auth_enabled: true, has_admin: true, registration_enabled: false }
    );
    assert_eq!(
        manager(true, true).status(),
        AuthStatus { auth_enabled: true, has_admin: true, registration_enabled: true }
    );
}

#[test]
fn refresh_needs_refresh_claims() {
    let m = manager(true, false);
    assert_eq!(m.refresh_with(None, 100).err(), Some(AuthError::InvalidToken));
    assert_eq!(m.refresh_with(Some(claims("access", 100)), 100).err(), Some(AuthError::InvalidToken));
    assert_eq!(m.refresh_with(Some(claims("refresh", i64::MAX - 10)), i64::MAX - 10).err(), Some(AuthError::Jwt));
}

#[test]
fn refresh_issues_tokens_that_validate() {
    let m = manager(true, false);
    let now = chrono::Utc::now().timestamp();
    let t = m.refresh_with(Some(claims("refresh", now)), now).unwrap();
    assert_eq!(t.token_type, "Bearer");
    assert_eq!(t.expires_in, ACCESS_TOKEN_SECONDS);
    assert_ne!(t.access_token, t.refresh_token);
    let access = m.validate_token(&t.access_token).unwrap();
    assert_eq!(access.token_type, "access");
    assert_eq!(access.exp, now + 86400);
    let again = m.refresh(&t.refresh_token).unwrap();
    assert_eq!(m.validate_token(&again.refresh_token).unwrap().token_type, "refresh");
    assert_eq!(m.refresh(&t.access_token).err(), Some(AuthError::InvalidToken));
    assert_eq!(m.refresh("garbage").err(), Some(AuthError::InvalidToken));
}

#[test]
fn ws_token_from_query() {
    assert_eq!(query_token_of("a=1&token=abc&b=2"), Some(b"abc".to_vec()));
    assert_eq!(query_token_of("token=x"), Some(b"x".to_vec()));
    assert_eq!(query_token_of("token="), Some(Vec::new()));
    assert_eq!(query_token_of("a=1&b=2"), None);
    assert_eq!(query_token_of("mytoken=1"), None);
    assert_eq!(query_token_of(""), None);
    let m = manager(true, false);
    let now = chrono::Utc::now().timestamp();
    let t = m.refresh_with(Some(claims("refresh", now)), now).unwrap();
    let q = format!("x=y&token={}", t.access_token);
    assert_eq!(validate_ws_token(&m, &q).unwrap().sub, "admin");
    assert!(validate_ws_token(&m, "token=bad").is_none());
    assert!(validate_ws_token(&m, "x=1").is_none());
}

#[test]
fn register_then_login() {
    let mut m = manager(false, false);
    assert_eq!(m.login("secret-pass").err(), Some(AuthError::InvalidCredentials));
    let hash = m.register("secret-pass").unwrap();
    assert!(hash.starts_with("$argon2"));
    assert!(m.has_admin());
    assert_eq!(m.register("other").err(), Some(AuthError::RegistrationDisabled));
    let t = m.login("secret-pass").unwrap();
    assert_eq!(t.token_type, "Bearer");
    assert_eq!(m.validate_token(&t.access_token).unwrap().sub, "admin");
    assert_eq!(m.login("wrong-pass").err(), Some(AuthError::InvalidCredentials));
    let now = chrono::Utc::now().timestamp();
    let at = m.login_at("secret-pass", now).unwrap();
    assert_eq!(m.validate_token(&at.refresh_token).unwrap().exp, now + 604800);
}

#[test]
fn register_with_registration_enabled_and_admin_present() {
    let mut m = manager(true, true);
    assert_eq!(m.register("x").err(), Some(AuthError::UserAlreadyExists));
}

#[test]
fn unparsable_stored_hash_is_a_hash_error() {
    let m = AuthManager::from_parts("/tmp".to_string(), vec![1u8; 32], Some("nope".to_string()), false);
    assert_eq!(m.login("pw").err(), Some(AuthError::Hash));
}

#[test]
fn public_routes_and_bearer_headers() {
    assert!(is_public_route("/health"));
    assert!(!is_public_route("/healthz"));
    assert!(is_public_route("/auth/login"));
    assert!(is_public_route("/auth/status"));
    assert!(!is_public_route("/api/agents"));
    assert_eq!(bearer_token(None), Err(AuthError::MissingAuthHeader));
    assert_eq!(bearer_token(Some("Basic abc")), Err(AuthError::InvalidAuthHeaderFormat));
    assert_eq!(bearer_token(Some("Bearer abc.def")), Ok(b"abc.def".to_vec()));
}

#[test]
fn authorize_requests() {
    let m = manager(true, false);
    assert_eq!(m.authorize("/health", None), Ok(None));
    assert_eq!(m.authorize("/api/agents", None), Err(AuthError::MissingAuthHeader));
    assert_eq!(m.authorize("/api/agents", Some("Token x")), Err(AuthError::InvalidAuthHeaderFormat));
    assert_eq!(m.authorize("/api/agents", Some("Bearer bad")), Err(AuthError::InvalidToken));
    let now = chrono::Utc::now().timestamp();
    let t = m.refresh_with(Some(claims("refresh", now)), now).unwrap();
    let header = format!("Bearer {}", t.access_token);
    assert_eq!(m.authorize("/api/agents", Some(&header)).unwrap().unwrap().sub, "admin");
}

#[test]
fn cli_passwords_need_eight_bytes() {
    assert_eq!(hash_admin_password("short"), Ok(None));
    assert!(hash_admin_password("long enough").unwrap().unwrap().starts_with("$argon2"));
}

#[test]
fn registered_hash_verifies() {
    let mut m = manager(false, false);
    let hash = m.register("correct horse").unwrap();
    let parsed = argon2::PasswordHash::new(&hash).unwrap();
    assert!(argon2::Argon2::default().verify_password(b"correct horse", &parsed).is_ok());
    let cli = hash_admin_password("battery staple").unwrap().unwrap();
    let parsed = argon2::PasswordHash::new(&cli).unwrap();
    assert!(argon2::Argon2::default().verify_password(b"battery staple", &parsed).is_ok());
}
