use sistema_bancario_hnl::middleware::auth::{authenticate, Claims, HeaderCheck};
use sistema_bancario_hnl::clock::{CalendarDate, Timestamp};
use sistema_bancario_hnl::handlers::auth::{check_refresh_owner, AppError};
use sistema_bancario_hnl::ids::{parse_uuid, uuid_to_text};
use sistema_bancario_hnl::models::api::auth::{CreateUserRequest, LoginRequest, RefreshRequest};
use sistema_bancario_hnl::models::database::User;
use sistema_bancario_hnl::passwords::{hash_password, verify_password};
use sistema_bancario_hnl::services::auth::{AuthAction, AuthError, AuthEvent, AuthOperation, AuthPhase, AuthReply, AuthService};

fn registration() -> CreateUserRequest {
    CreateUserRequest {
        email: "ana@example.com".to_string(),
        password: "correct horse".to_string(),
        first_name: "Ana".to_string(),
        last_name: "Lopez".to_string(),
        document_number: "0801199912345".to_string(),
        phone: Some("+50499990000".to_string()),
        date_of_birth: CalendarDate { year: 1990, month: 2, day: 14 },
        tb_account_id: None,
    }
}

fn stored(password: &str, active: bool) -> User {
    let t = Timestamp { secs: 1_700_000_000, nanos: 5 };
    User {
        id: 0x0123456789abcdef0123456789abcdef,
        email: "ana@example.com".to_string(),
        password_hash: hash_password(password, 4).ok().unwrap(),
        first_name: "Ana".to_string(),
        last_name: "Lopez".to_string(),
        document_number: "0801199912345".to_string(),
        phone: None,
        date_of_birth: CalendarDate { year: 1990, month: 2, day: 14 },
        is_active: active,
        tb_account_id: Some(9),
        created_at: t,
        updated_at: t,
    }
}

fn failure_of(a: AuthAction) -> AuthError {
    match a {
        AuthAction::Reply { result: Err(e) } => e,
        _ => panic!("expected a failure"),
    }
}

#[test]
fn bcrypt_roundtrip() {
    let h = hash_password("hunter2", 4).ok().unwrap();
    assert_eq!(h.len(), 60);
    assert_eq!(verify_password("hunter2", &h), Ok(true));
    assert_eq!(verify_password("hunter3", &h), Ok(false));
    assert!(verify_password("hunter2", "not a hash").is_err());
    assert!(hash_password("x", 3).is_err());
    assert!(hash_password("x", 32).is_err());
}

#[test]
fn uuid_text_roundtrip() {
    let id: u128 = 0xa1a2a3a4b1b2c1c2d1d2d3d4d5d6d7d8;
    assert_eq!(uuid_to_text(id), "a1a2a3a4-b1b2-c1c2-d1d2-d3d4d5d6d7d8");
    assert_eq!(parse_uuid("a1a2a3a4-b1b2-c1c2-d1d2-d3d4d5d6d7d8"), Some(id));
    assert_eq!(parse_uuid("A1A2A3A4B1B2C1C2D1D2D3D4D5D6D7D8"), Some(id));
    assert_eq!(parse_uuid("00000000-0000-0000-0000-000000000001"), Some(1));
    assert_eq!(parse_uuid("nope"), None);
    assert_eq!(uuid_to_text(1), "00000000-0000-0000-0000-000000000001");
}

#[test]
fn register_flow() {
    let svc = AuthService::new("secret".to_string(), 24);
    let op = AuthOperation::Register { request: registration() };
    let (p, a) = svc.step(&op, AuthPhase::Start, AuthEvent::Begin);
    assert!(matches!(p, AuthPhase::AwaitEmailCheck));
    assert!(matches!(a, AuthAction::CheckEmail { ref email } if email == "ana@example.com"));
    let (p, a) = svc.step(&op, p, AuthEvent::EmailChecked(Ok(false)));
    let (account_id, user) = match (p, a) {
        (AuthPhase::AwaitUserInsert { account_id }, AuthAction::InsertUser { user }) => (account_id, user),
        _ => panic!("expected the user record"),
    };
    assert_eq!(user.tb_account_id, Some(account_id));
    assert!(user.is_active);
    assert_eq!(user.email, "ana@example.com");
    assert_eq!(user.phone, Some("+50499990000".to_string()));
    assert_eq!(verify_password("correct horse", &user.password_hash), Ok(true));
    let user_id = user.id;
    let (p, a) = svc.step(&op, AuthPhase::AwaitUserInsert { account_id }, AuthEvent::UserInserted(Ok(user)));
    match a {
        AuthAction::CreateLedgerAccount { account } => {
            assert_eq!(account.id, account_id);
            assert_eq!(account.user_data_128, user_id);
            assert_eq!(account.ledger, 1);
            assert_eq!(account.code, 1);
            assert!(account.debits_must_not_exceed_credits);
        },
        _ => panic!("expected the ledger account"),
    }
    let (p, a) = svc.step(&op, p, AuthEvent::LedgerAccountCreated(Ok(())));
    match &a {
        AuthAction::SignToken { claims } => {
            assert_eq!(claims.sub, user_id);
            assert_eq!(claims.email, "ana@example.com");
            assert!(claims.exp >= claims.iat + 24 * 3600 - 5 && claims.exp <= claims.iat + 24 * 3600);
        },
        _ => panic!("expected claims"),
    }
    let (p, a) = svc.step(&op, p, AuthEvent::TokenSigned(Ok("tok".to_string())));
    assert!(matches!(p, AuthPhase::Finished));
    match a {
        AuthAction::Reply { result: Ok(AuthReply::Register(r)) } => {
            assert_eq!(r.user.id, user_id);
            assert_eq!(r.user.first_name, "Ana");
            assert_eq!(r.account.id, account_id);
            assert_eq!(r.account.account_type, "Savings");
            assert_eq!(r.account.currency, "USD");
            assert_eq!(r.account.current_balance, 0);
            assert_eq!(r.account.account_number, format!("001-{:08}", user_id % 100000000));
            assert_eq!(r.tokens.access_token, "tok");
            assert_eq!(r.tokens.token_type, "Bearer");
            assert_eq!(r.tokens.expires_in, 24 * 3600);
            assert!(r.tokens.refresh_token.starts_with(&format!("refresh_{}_", uuid_to_text(user_id))));
        },
        _ => panic!("expected the registration answer"),
    }
}

#[test]
fn register_with_taken_email() {
    let svc = AuthService::new("secret".to_string(), 24);
    let op = AuthOperation::Register { request: registration() };
    let (p, _) = svc.step(&op, AuthPhase::Start, AuthEvent::Begin);
    let (p, a) = svc.step(&op, p, AuthEvent::EmailChecked(Ok(true)));
    assert!(matches!(p, AuthPhase::Finished));
    let e = failure_of(a);
    assert_eq!(e.message(), "El usuario ya existe");
    let (code, body) = AppError::from_auth(&e).into_response();
    assert_eq!(code, 500);
    assert_eq!(body, "Error: El usuario ya existe");
}

#[test]
fn login_flow_and_failures() {
    let svc = AuthService::new("secret".to_string(), 2);
    let op = AuthOperation::Login {
        request: LoginRequest { email: "ana@example.com".to_string(), password: "pw-1".to_string() },
    };
    let (p, a) = svc.step(&op, AuthPhase::Start, AuthEvent::Begin);
    assert!(matches!(p, AuthPhase::AwaitUser));
    assert!(matches!(a, AuthAction::FindUserByEmail { ref email } if email == "ana@example.com"));
    let (_, a) = svc.step(&op, AuthPhase::AwaitUser, AuthEvent::UserFound(Ok(None)));
    assert_eq!(failure_of(a).message(), "Credenciales inválidas");
    let (_, a) = svc.step(&op, AuthPhase::AwaitUser, AuthEvent::UserFound(Ok(Some(stored("other", true)))));
    assert_eq!(failure_of(a).message(), "Credenciales inválidas");
    let (_, a) = svc.step(&op, AuthPhase::AwaitUser, AuthEvent::UserFound(Ok(Some(stored("pw-1", false)))));
    assert_eq!(failure_of(a).message(), "Usuario inactivo");
    let u = stored("pw-1", true);
    let (p, a) = svc.step(&op, AuthPhase::AwaitUser, AuthEvent::UserFound(Ok(Some(u))));
    assert!(matches!(a, AuthAction::SignToken { ref claims } if claims.sub == 0x0123456789abcdef0123456789abcdef));
    let (_, a) = svc.step(&op, p, AuthEvent::TokenSigned(Ok("abc".to_string())));
    match a {
        AuthAction::Reply { result: Ok(AuthReply::Token(t)) } => {
            assert_eq!(t.access_token, "abc");
            assert_eq!(t.token_type, "Bearer");
            assert_eq!(t.expires_in, 7200);
            assert_eq!(t.user_id, 0x0123456789abcdef0123456789abcdef);
            assert_eq!(t.email, "ana@example.com");
            assert!(t.refresh_token.starts_with("refresh_01234567-89ab-cdef-0123-456789abcdef_"));
        },
        _ => panic!("expected tokens"),
    }
}

#[test]
fn login_with_unreadable_hash_reports_bcrypt_error() {
    let svc = AuthService::new("secret".to_string(), 2);
    let op = AuthOperation::Login { request: LoginRequest { email: "a@b.c".to_string(), password: "x".to_string() } };
    let mut u = stored("x", true);
    u.password_hash = "plain".to_string();
    let (_, a) = svc.step(&op, AuthPhase::AwaitUser, AuthEvent::UserFound(Ok(Some(u))));
    assert!(failure_of(a).message().starts_with("Invalid hash"));
}

#[test]
fn refresh_and_logout() {
    let svc = AuthService::new("secret".to_string(), 1);
    let op = AuthOperation::Refresh { request: RefreshRequest { user_id: 77, refresh_token: "r".to_string() } };
    let (_, a) = svc.step(&op, AuthPhase::Start, AuthEvent::Begin);
    assert!(matches!(a, AuthAction::FindUserById { user_id: 77 }));
    let (_, a) = svc.step(&op, AuthPhase::AwaitUser, AuthEvent::UserFound(Ok(None)));
    assert_eq!(failure_of(a).message(), "Usuario no encontrado");
    let (_, a) = svc.step(&op, AuthPhase::AwaitUser, AuthEvent::UserFound(Ok(Some(stored("p", false)))));
    assert_eq!(failure_of(a).message(), "Usuario inactivo");
    let (_, a) = svc.step(&op, AuthPhase::AwaitUser, AuthEvent::UserFound(Err("db down".to_string())));
    assert_eq!(failure_of(a).message(), "db down");
    let (_, a) = svc.step(&op, AuthPhase::AwaitUser, AuthEvent::UserFound(Ok(Some(stored("p", true)))));
    assert!(matches!(a, AuthAction::SignToken { .. }));

    let op = AuthOperation::Logout { user_id: 77 };
    let (_, a) = svc.step(&op, AuthPhase::AwaitUser, AuthEvent::UserFound(Ok(Some(stored("p", true)))));
    match a {
        AuthAction::Reply { result: Ok(AuthReply::Logout(r)) } => {
            assert_eq!(r.message, "Sesión cerrada exitosamente");
            assert_eq!(r.user_id, 77);
        },
        _ => panic!("expected the logout answer"),
    }
}

#[test]
fn token_expiry_outside_representable_dates() {
    let svc = AuthService::new("secret".to_string(), 2_562_047_788_015);
    let op = AuthOperation::Refresh { request: RefreshRequest { user_id: 1, refresh_token: "r".to_string() } };
    let (_, a) = svc.step(&op, AuthPhase::AwaitUser, AuthEvent::UserFound(Ok(Some(stored("p", true)))));
    assert_eq!(failure_of(a).message(), "Invalid timestamp");
}

#[test]
fn token_response_text() {
    let svc = AuthService::new("secret".to_string(), 3);
    let u = stored("p", true);
    let t = svc.token_response_at(&u, "tok".to_string(), Timestamp { secs: -42, nanos: 0 });
    assert_eq!(t.refresh_token, "refresh_01234567-89ab-cdef-0123-456789abcdef_-42");
    assert_eq!(t.expires_in, 10800);
}

#[test]
fn claims_from_expiry() {
    let svc = AuthService::new("secret".to_string(), 3);
    let u = stored("p", true);
    let c = svc.claims_at(&u, Some(Timestamp { secs: 1000, nanos: 0 }), Timestamp { secs: 10, nanos: 0 }).ok().unwrap();
    assert_eq!((c.exp, c.iat, c.sub), (1000, 10, u.id));
    assert!(matches!(svc.claims_at(&u, None, Timestamp { secs: 10, nanos: 0 }), Err(AuthError::InvalidTimestamp)));
}

#[test]
fn refresh_must_name_the_caller() {
    assert!(check_refresh_owner(3, 3).is_ok());
    let e = check_refresh_owner(3, 4).err().unwrap();
    assert_eq!(e.message, "Token no coincide con usuario");
    assert_eq!(e.into_response(), (500, "Error: Token no coincide con usuario".to_string()));
}

#[test]
fn registered_user_can_log_in() {
    let svc = AuthService::new("secret".to_string(), 24);
    let reg = AuthOperation::Register { request: registration() };
    let (p, _) = svc.step(&reg, AuthPhase::Start, AuthEvent::Begin);
    let (_, a) = svc.step(&reg, p, AuthEvent::EmailChecked(Ok(false)));
    let user = match a {
        AuthAction::InsertUser { user } => user,
        _ => panic!("expected the user record"),
    };
    let user_id = user.id;
    let login = AuthOperation::Login {
        request: LoginRequest { email: "ana@example.com".to_string(), password: "correct horse".to_string() },
    };
    let (_, a) = svc.step(&login, AuthPhase::AwaitUser, AuthEvent::UserFound(Ok(Some(user))));
    match a {
        AuthAction::SignToken { claims } => {
            assert_eq!(claims.sub, user_id);
            assert_eq!(claims.email, "ana@example.com");
        },
        _ => panic!("expected the token to be signed"),
    }
}

#[test]
fn lifetime_only_matters_where_a_token_is_made() {
    let svc = AuthService::new("secret".to_string(), i64::MAX);
    assert!(!svc.lifetime_in_range());
    assert!(AuthService::new("s".to_string(), 2_562_047_788_015).lifetime_in_range());
    assert!(!AuthService::new("s".to_string(), 2_562_047_788_016).lifetime_in_range());
    let op = AuthOperation::Logout { user_id: 0x0123456789abcdef0123456789abcdef };
    let found = AuthEvent::UserFound(Ok(Some(stored("pw", true))));
    assert!(!svc.step_signs_token(&op, &AuthPhase::AwaitUser, &found));
    let (p, a) = svc.step(&op, AuthPhase::AwaitUser, found);
    assert!(matches!(p, AuthPhase::Finished));
    assert!(matches!(a, AuthAction::Reply { result: Ok(AuthReply::Logout(_)) }));
    let login = AuthOperation::Login { request: LoginRequest { email: "ana@example.com".to_string(), password: "pw".to_string() } };
    let wrong = AuthOperation::Login { request: LoginRequest { email: "ana@example.com".to_string(), password: "no".to_string() } };
    let found = AuthEvent::UserFound(Ok(Some(stored("pw", true))));
    assert!(svc.step_signs_token(&login, &AuthPhase::AwaitUser, &found));
    assert!(!svc.step_signs_token(&wrong, &AuthPhase::AwaitUser, &found));
    let (_, a) = svc.step(&wrong, AuthPhase::AwaitUser, found);
    assert_eq!(failure_of(a).message(), "Credenciales inválidas");
    let reg = AuthOperation::Register { request: registration() };
    assert!(!svc.step_signs_token(&reg, &AuthPhase::AwaitEmailCheck, &AuthEvent::EmailChecked(Ok(true))));
    let (_, a) = svc.step(&reg, AuthPhase::AwaitEmailCheck, AuthEvent::EmailChecked(Ok(true)));
    assert_eq!(failure_of(a).message(), "El usuario ya existe");
}

#[test]
fn issued_token_authenticates_its_user() {
    let svc = AuthService::new("secret".to_string(), 2);
    let u = stored("pw", true);
    let claims = svc.token_claims(&u).ok().unwrap();
    let read = Claims { sub: uuid_to_text(claims.sub), email: claims.email.clone(), exp: claims.exp };
    let who = authenticate(&HeaderCheck::Bearer { token: "t".to_string() }, Some(Ok(read))).unwrap();
    assert_eq!(who.user_id, u.id);
    assert_eq!(who.email, u.email);
}

#[test]
fn hash_has_bcrypt_form() {
    let h = hash_password("correct horse", 4).ok().unwrap();
    assert_eq!(h.len(), 60);
    assert!(h.starts_with("$2b$04$"));
    assert_ne!(h, "correct horse");
    assert!(hash_password("x", 3).is_err());
}

#[test]
fn registration_hashes_at_default_cost() {
    let svc = AuthService::new("secret".to_string(), 24);
    let reg = AuthOperation::Register { request: registration() };
    let (_, a) = svc.step(&reg, AuthPhase::AwaitEmailCheck, AuthEvent::EmailChecked(Ok(false)));
    match a {
        AuthAction::InsertUser { user } => {
            assert_eq!(user.password_hash.len(), 60);
            assert!(user.password_hash.starts_with("$2b$12$"));
        },
        _ => panic!("expected the user record"),
    }
}
