use vstd::prelude::*;

use crate::clock::{checked_add_hours, max_duration_hours, now, Timestamp};
use crate::ids::{new_random_id, uuid_text, uuid_to_text};
use crate::models::api::account::AccountResponse;
use crate::models::api::auth::{
    CreateUserRequest, LoginRequest, LogoutResponse, RefreshRequest, RegisterResponse, TokenClaims, TokenResponse,
    UserResponse,
};
use crate::models::database::User;
use crate::passwords::{bcrypt_hash_form, bcrypt_verify_outcome, default_cost, hash_password, password_matches, verify_password};
use crate::repositories::UserRepository;
use crate::services::tigerbeetle_service::{account_number_text, NewLedgerAccount, TigerBeetleService, BANK_CODE, BANK_LEDGER};
use crate::text::{i64_to_text, signed_decimal, starts_with_text};

verus! {

/// Why a registration, login, logout or renewal failed.
pub enum AuthError {
    /// The database failed, with this message.
    Database(String),
    /// The ledger refused or failed to create the account, with this message.
    Ledger(String),
    /// Password hashing failed, with this message.
    Hash(String),
    /// Signing the token failed, with this message.
    Token(String),
    UserExists,
    InvalidCredentials,
    Inactive,
    UserNotFound,
    /// The token's expiry lies outside the dates that can be represented.
    InvalidTimestamp,
}

/// The message of each failure.
pub open spec fn auth_error_text(e: AuthError) -> Seq<char> {
    match e {
        AuthError::Database(m) => m@,
        AuthError::Ledger(m) => m@,
        AuthError::Hash(m) => m@,
        AuthError::Token(m) => m@,
        AuthError::UserExists => "El usuario ya existe"@,
        AuthError::InvalidCredentials => "Credenciales inválidas"@,
        AuthError::Inactive => "Usuario inactivo"@,
        AuthError::UserNotFound => "Usuario no encontrado"@,
        AuthError::InvalidTimestamp => "Invalid timestamp"@,
    }
}

impl AuthError {
    /// The message of the failure.
    pub fn message(&self) -> (res: String)
        ensures
            res@ == auth_error_text(*self),
    {
        match self {
            AuthError::Database(m) => m.clone(),
            AuthError::Ledger(m) => m.clone(),
            AuthError::Hash(m) => m.clone(),
            AuthError::Token(m) => m.clone(),
            AuthError::UserExists => "El usuario ya existe".to_string(),
            AuthError::InvalidCredentials => "Credenciales inválidas".to_string(),
            AuthError::Inactive => "Usuario inactivo".to_string(),
            AuthError::UserNotFound => "Usuario no encontrado".to_string(),
            AuthError::InvalidTimestamp => "Invalid timestamp".to_string(),
        }
    }
}

/// The user as shown after registration: the stored fields but the password
/// hash, the ledger account, the activity flag and the time stamps.
pub open spec fn user_response_of(u: User, r: UserResponse) -> bool {
    &&& r.id == u.id
    &&& r.email == u.email
    &&& r.first_name == u.first_name
    &&& r.last_name == u.last_name
    &&& r.document_number == u.document_number
    &&& r.phone == u.phone
    &&& r.date_of_birth == u.date_of_birth
}

/// The claims of an access token for `u` that expires at `expiry` and was
/// issued at `issued`, the instants cut to `usize` seconds.
pub open spec fn claims_of(u: User, expiry: Timestamp, issued: Timestamp, c: TokenClaims) -> bool {
    &&& c.sub == u.id
    &&& c.exp == expiry.secs as usize
    &&& c.iat == issued.secs as usize
    &&& c.email == u.email
}

/// The instant `hours` after `t`.
pub open spec fn hours_after(t: Timestamp, hours: i64) -> Timestamp {
    Timestamp { secs: (t.secs + hours * 3600) as i64, nanos: t.nanos }
}

/// The claims are those of a token for `u` issued at some instant and
/// expiring `hours` after that same instant.
pub open spec fn claims_for(u: User, hours: i64, c: TokenClaims) -> bool {
    exists|t: Timestamp|
        #[trigger] claims_of(u, hours_after(t, hours), t, c) && i64::MIN <= t.secs + hours * 3600 <= i64::MAX
}

/// The refresh token handed out with an access token:
/// `refresh_<user id>_<seconds>`.
pub open spec fn refresh_token_text(user_id: u128, at: Timestamp) -> Seq<char> {
    "refresh_"@ + uuid_text(user_id) + "_"@ + signed_decimal(at.secs as int)
}

/// The tokens handed out to `u`: the signed access token, a refresh token
/// made at `at`, the `Bearer` type and the lifetime in seconds.
pub open spec fn token_response_of(u: User, access_token: String, at: Timestamp, hours: i64, t: TokenResponse) -> bool {
    &&& t.access_token == access_token
    &&& t.refresh_token@ == refresh_token_text(u.id, at)
    &&& t.token_type@ == "Bearer"@
    &&& t.expires_in == hours * 3600
    &&& t.user_id == u.id
    &&& t.email == u.email
}

/// The tokens handed out to `u`, the refresh token made at some instant.
pub open spec fn token_response_for(u: User, access_token: String, hours: i64, t: TokenResponse) -> bool {
    exists|at: Timestamp| #[trigger] token_response_of(u, access_token, at, hours, t)
}

/// A registration, login, logout or renewal, carried out step by step.
pub enum AuthOperation {
    Register { request: CreateUserRequest },
    Login { request: LoginRequest },
    Logout { user_id: u128 },
    Refresh { request: RefreshRequest },
}

/// Where an operation stands.
pub enum AuthPhase {
    Start,
    /// Asked whether the e-mail is taken.
    AwaitEmailCheck,
    /// Sent the new user record, with its ledger account's id.
    AwaitUserInsert { account_id: u128 },
    /// Sent the new ledger account of the stored user.
    AwaitLedgerAccount { account_id: u128, user: User },
    /// Asked for the user record.
    AwaitUser,
    /// Sent the claims to be signed, for the user (and the new ledger
    /// account of a registration).
    AwaitToken { user: User, account_id: Option<u128> },
    Finished,
}

/// What the database, the ledger or the signer answered.
pub enum AuthEvent {
    Begin,
    /// Whether the e-mail is taken.
    EmailChecked(Result<bool, String>),
    /// The stored user record.
    UserInserted(Result<User, String>),
    /// The ledger's answer to the account creation.
    LedgerAccountCreated(Result<(), String>),
    /// The user record looked up.
    UserFound(Result<Option<User>, String>),
    /// The signed access token.
    TokenSigned(Result<String, String>),
}

/// The answer of an operation.
pub enum AuthReply {
    Register(RegisterResponse),
    Token(TokenResponse),
    Logout(LogoutResponse),
}

/// What to do next.
pub enum AuthAction {
    /// Ask whether a user has the e-mail.
    CheckEmail { email: String },
    /// Store a new user.
    InsertUser { user: User },
    /// Create a ledger account.
    CreateLedgerAccount { account: NewLedgerAccount },
    /// Look a user up by e-mail.
    FindUserByEmail { email: String },
    /// Look a user up by id.
    FindUserById { user_id: u128 },
    /// Sign the claims into an access token.
    SignToken { claims: TokenClaims },
    /// Answer.
    Reply { result: Result<AuthReply, AuthError> },
}

/// The events each phase waits for.
pub open spec fn auth_expects(op: AuthOperation, phase: AuthPhase, event: AuthEvent) -> bool {
    match phase {
        AuthPhase::Start => event is Begin,
        AuthPhase::AwaitEmailCheck => event is EmailChecked && op is Register,
        AuthPhase::AwaitUserInsert { .. } => event is UserInserted && op is Register,
        AuthPhase::AwaitLedgerAccount { .. } => event is LedgerAccountCreated && op is Register,
        AuthPhase::AwaitUser => event is UserFound && !(op is Register),
        AuthPhase::AwaitToken { account_id, .. } => event is TokenSigned && !(op is Logout) && (account_id is Some
            <==> op is Register),
        AuthPhase::Finished => false,
    }
}

/// The token lifetime can be added to an instant: chrono's
/// `Duration::hours` takes it without panicking.
pub open spec fn hours_in_range(hours: i64) -> bool {
    -max_duration_hours() <= hours <= max_duration_hours()
}

/// The step makes a token: claims after a registration's ledger account was
/// created, or for an active user found at login (with a matching password)
/// or renewal, or the token answer once a token was signed. Only such a step
/// uses the token lifetime.
pub open spec fn signs_token(op: AuthOperation, phase: AuthPhase, event: AuthEvent) -> bool {
    match (phase, event) {
        (AuthPhase::AwaitLedgerAccount { .. }, AuthEvent::LedgerAccountCreated(created)) => created is Ok,
        (AuthPhase::AwaitUser, AuthEvent::UserFound(Ok(Some(user)))) => user.is_active && match op {
            AuthOperation::Login { request } => bcrypt_verify_outcome(request.password@, user.password_hash@)
                == Ok::<bool, Seq<char>>(true),
            AuthOperation::Refresh { .. } => true,
            _ => false,
        },
        (AuthPhase::AwaitToken { .. }, AuthEvent::TokenSigned(signed)) => signed is Ok,
        _ => false,
    }
}

/// Answer with a failure.
pub open spec fn auth_fails(res: (AuthPhase, AuthAction), e: AuthError) -> bool {
    res.0 is Finished && (res.1 matches AuthAction::Reply { result: Err(f) } && f == e)
}

/// The user record a registration stores: the request's data, the password
/// hashed with bcrypt at cost 12 (so that the password verifies against it),
/// the new ledger account, active.
pub open spec fn registered_user(r: CreateUserRequest, account_id: u128, u: User) -> bool {
    &&& u.email == r.email
    &&& password_matches(r.password@, u.password_hash@)
    &&& bcrypt_hash_form(12, u.password_hash@)
    &&& u.first_name == r.first_name
    &&& u.last_name == r.last_name
    &&& u.document_number == r.document_number
    &&& u.phone == r.phone
    &&& u.date_of_birth == r.date_of_birth
    &&& u.tb_account_id == Some(account_id)
    &&& u.is_active
}

/// The claims are for the user and its e-mail, and expire `hours` after
/// some instant, or the expiry could not be represented.
pub open spec fn claims_step(hours: i64, u: User, res: (AuthPhase, AuthAction), account_id: Option<u128>) -> bool {
    ||| auth_fails(res, AuthError::InvalidTimestamp)
    ||| {
        &&& res.0 matches AuthPhase::AwaitToken { user, account_id: a } && user == u && a == account_id
        &&& res.1 matches AuthAction::SignToken { claims } && claims.sub == u.id && claims.email == u.email
            && claims_for(u, hours, claims)
    }
}

/// One step of an operation: what it does for each phase and answer.
pub open spec fn auth_step(hours: i64, op: AuthOperation, phase: AuthPhase, event: AuthEvent, res: (AuthPhase, AuthAction)) -> bool {
    match (phase, event) {
        (AuthPhase::Start, _) => match op {
            AuthOperation::Register { request } => res.0 is AwaitEmailCheck && (res.1 matches AuthAction::CheckEmail {
                email,
            } && email == request.email),
            AuthOperation::Login { request } => res.0 is AwaitUser && (res.1 matches AuthAction::FindUserByEmail {
                email,
            } && email == request.email),
            AuthOperation::Logout { user_id } => res.0 is AwaitUser && (res.1 matches AuthAction::FindUserById {
                user_id: id,
            } && id == user_id),
            AuthOperation::Refresh { request } => res.0 is AwaitUser && (res.1 matches AuthAction::FindUserById {
                user_id: id,
            } && id == request.user_id),
        },
        (AuthPhase::AwaitEmailCheck, AuthEvent::EmailChecked(checked)) => match op {
            AuthOperation::Register { request } => match checked {
                Err(m) => auth_fails(res, AuthError::Database(m)),
                Ok(true) => auth_fails(res, AuthError::UserExists),
                Ok(false) => {
                    ||| (res.1 matches AuthAction::Reply { result: Err(AuthError::Hash(m)) } && res.0 is Finished
                        && starts_with_text(m@, "Rand error: "@))
                    ||| (res.0 matches AuthPhase::AwaitUserInsert { account_id } && res.1 matches AuthAction::InsertUser {
                        user,
                    } && registered_user(request, account_id, user))
                },
            },
            _ => false,
        },
        (AuthPhase::AwaitUserInsert { account_id }, AuthEvent::UserInserted(inserted)) => match inserted {
            Err(m) => auth_fails(res, AuthError::Database(m)),
            Ok(user) => (res.0 matches AuthPhase::AwaitLedgerAccount { account_id: a, user: u } && a == account_id
                && u == user) && (res.1 matches AuthAction::CreateLedgerAccount { account } && account == (
            NewLedgerAccount {
                id: account_id,
                user_data_128: user.id,
                ledger: BANK_LEDGER,
                code: BANK_CODE,
                debits_must_not_exceed_credits: true,
            })),
        },
        (AuthPhase::AwaitLedgerAccount { account_id, user }, AuthEvent::LedgerAccountCreated(created)) => match created {
            Err(m) => auth_fails(res, AuthError::Ledger(m)),
            Ok(_) => claims_step(hours, user, res, Some(account_id)),
        },
        (AuthPhase::AwaitUser, AuthEvent::UserFound(found)) => match found {
            Err(m) => auth_fails(res, AuthError::Database(m)),
            Ok(None) => match op {
                AuthOperation::Login { .. } => auth_fails(res, AuthError::InvalidCredentials),
                _ => auth_fails(res, AuthError::UserNotFound),
            },
            Ok(Some(user)) => match op {
                AuthOperation::Login { request } => match bcrypt_verify_outcome(request.password@, user.password_hash@) {
                    Err(m) => res.0 is Finished && (res.1 matches AuthAction::Reply { result: Err(AuthError::Hash(h)) } && h@
                        == m),
                    Ok(false) => auth_fails(res, AuthError::InvalidCredentials),
                    Ok(true) => if !user.is_active {
                        auth_fails(res, AuthError::Inactive)
                    } else {
                        claims_step(hours, user, res, None)
                    },
                },
                AuthOperation::Refresh { .. } => if !user.is_active {
                    auth_fails(res, AuthError::Inactive)
                } else {
                    claims_step(hours, user, res, None)
                },
                AuthOperation::Logout { user_id } => res.0 is Finished && (res.1 matches AuthAction::Reply {
                    result: Ok(AuthReply::Logout(r)),
                } && r.message@ == "Sesión cerrada exitosamente"@ && r.user_id == user_id),
                _ => false,
            },
        },
        (AuthPhase::AwaitToken { user, account_id }, AuthEvent::TokenSigned(signed)) => match signed {
            Err(m) => auth_fails(res, AuthError::Token(m)),
            Ok(token) => res.0 is Finished && match account_id {
                None => res.1 matches AuthAction::Reply { result: Ok(AuthReply::Token(t)) } && token_response_for(
                    user,
                    token,
                    hours,
                    t,
                ),
                Some(a) => res.1 matches AuthAction::Reply { result: Ok(AuthReply::Register(r)) } && {
                    &&& user_response_of(user, r.user)
                    &&& r.account.id == a
                    &&& r.account.account_number@ == account_number_text(user.id)
                    &&& r.account.account_type@ == "Savings"@
                    &&& r.account.currency@ == "USD"@
                    &&& r.account.current_balance == 0
                    &&& token_response_for(user, token, hours, r.tokens)
                },
            },
        },
        _ => false,
    }
}

/// A copy of an optional text.
pub fn clone_text(o: &Option<String>) -> (res: Option<String>)
    ensures
        res == *o,
{
    match o {
        Some(s) => Some(s.clone()),
        None => None,
    }
}

/// A login does not tell an unknown e-mail from a wrong password: both are
/// answered "invalid credentials".
pub proof fn law_login_hides_unknown_emails(
    hours: i64,
    request: LoginRequest,
    found: Result<Option<User>, String>,
    res: (AuthPhase, AuthAction),
)
    requires
        auth_step(hours, AuthOperation::Login { request }, AuthPhase::AwaitUser, AuthEvent::UserFound(found), res),
        found matches Ok(None) || (found matches Ok(Some(u)) && bcrypt_verify_outcome(request.password@, u.password_hash@)
            == Ok::<bool, Seq<char>>(false)),
    ensures
        auth_fails(res, AuthError::InvalidCredentials),
{
}

/// Tokens are signed only for an active user, and at login only when the
/// password matches the stored hash.
pub proof fn law_tokens_only_for_active_users(
    hours: i64,
    op: AuthOperation,
    found: Result<Option<User>, String>,
    res: (AuthPhase, AuthAction),
)
    requires
        auth_step(hours, op, AuthPhase::AwaitUser, AuthEvent::UserFound(found), res),
        res.1 is SignToken,
    ensures
        found matches Ok(Some(u)) && u.is_active && (op matches AuthOperation::Login { request } ==> password_matches(
            request.password@,
            u.password_hash@,
        )),
{
}

/// A user stored by a registration can log in with the registration's
/// password: once the record is found, the login goes on to sign a token
/// for that user (failing only if the expiry cannot be represented).
pub proof fn law_registered_user_can_log_in(
    hours: i64,
    registration: CreateUserRequest,
    account_id: u128,
    user: User,
    res: (AuthPhase, AuthAction),
)
    requires
        registered_user(registration, account_id, user),
        auth_step(
            hours,
            AuthOperation::Login { request: LoginRequest { email: registration.email, password: registration.password } },
            AuthPhase::AwaitUser,
            AuthEvent::UserFound(Ok(Some(user))),
            res,
        ),
    ensures
        claims_step(hours, user, res, None),
{
}

/// The refresh token names the user: it starts with `refresh_`, followed by
/// the user's id in its hyphenated text.
pub proof fn law_refresh_token_names_user(u: User, access_token: String, hours: i64, t: TokenResponse, at: Timestamp)
    requires
        token_response_of(u, access_token, at, hours, t),
    ensures
        t.refresh_token@.subrange(8, 44) == uuid_text(u.id),
        t.refresh_token@.subrange(0, 8) == "refresh_"@,
{
    reveal_strlit("refresh_");
    reveal_strlit("_");
    assert(t.refresh_token@.subrange(8, 44) =~= uuid_text(u.id));
    assert(t.refresh_token@.subrange(0, 8) =~= "refresh_"@);
}

/// The issue time and expiry of a token, in seconds since the epoch, read
/// from the instant `t`: issued at `t`, expiring `hours` hours later.
pub open spec fn issued_at_for_hours(t: Timestamp, hours: i64, c: TokenClaims) -> bool {
    &&& c.iat == t.secs as usize
    &&& c.exp == (t.secs + hours * 3600) as usize
}

/// Every token the service has signed, at registration, login or renewal,
/// names the user it is for, and expires the configured number of hours
/// after the instant it was issued at (in seconds: `exp == iat + hours *
/// 3600` wherever both fit).
pub proof fn law_tokens_expire_configured_hours_after_issue(
    hours: i64,
    op: AuthOperation,
    phase: AuthPhase,
    event: AuthEvent,
    res: (AuthPhase, AuthAction),
)
    requires
        auth_step(hours, op, phase, event, res),
        res.1 is SignToken,
    ensures
        res.0 matches AuthPhase::AwaitToken { user, .. } && (res.1 matches AuthAction::SignToken { claims } && {
            &&& claims.sub == user.id
            &&& claims.email == user.email
            &&& exists|t: Timestamp| #[trigger] issued_at_for_hours(t, hours, claims)
            &&& forall|t: Timestamp|
                #[trigger] issued_at_for_hours(t, hours, claims) && 0 <= t.secs <= usize::MAX && 0 <= t.secs + hours
                    * 3600 <= usize::MAX ==> claims.exp == claims.iat + hours * 3600
        }),
{
    let (user, claims) = match (res.0, res.1) {
        (AuthPhase::AwaitToken { user, .. }, AuthAction::SignToken { claims }) => (user, claims),
        _ => {
            assert(false);
            arbitrary()
        },
    };
    assert(claims_step(hours, user, res, None) || exists|a: u128| claims_step(hours, user, res, Some(a)));
    assert(claims_for(user, hours, claims));
    let t = choose|t: Timestamp|
        #[trigger] claims_of(user, hours_after(t, hours), t, claims) && i64::MIN <= t.secs + hours * 3600 <= i64::MAX;
    assert(issued_at_for_hours(t, hours, claims));
}

/// A registration whose e-mail is free stores the new user unless hashing
/// the password failed, and hashing fails only when the system gave no
/// randomness for the salt: no password is refused for what it is.
pub proof fn law_registration_fails_only_without_randomness(
    hours: i64,
    request: CreateUserRequest,
    res: (AuthPhase, AuthAction),
)
    requires
        auth_step(hours, AuthOperation::Register { request }, AuthPhase::AwaitEmailCheck, AuthEvent::EmailChecked(Ok(false)), res),
    ensures
        (res.0 matches AuthPhase::AwaitUserInsert { account_id } && (res.1 matches AuthAction::InsertUser { user }
            && registered_user(request, account_id, user))) || (res.0 is Finished && (res.1 matches AuthAction::Reply {
            result: Err(AuthError::Hash(m)),
        } && starts_with_text(m@, "Rand error: "@))),
{
}

/// Registration, login, logout and renewal of tokens.
pub struct AuthService {
    pub user_repository: UserRepository,
    pub tigerbeetle_service: TigerBeetleService,
    pub jwt_secret: String,
    pub jwt_expiration_hours: i64,
}

impl AuthService {
    pub fn new(jwt_secret: String, jwt_expiration_hours: i64) -> (res: AuthService)
        ensures
            res.jwt_secret == jwt_secret,
            res.jwt_expiration_hours == jwt_expiration_hours,
    {
        AuthService {
            user_repository: UserRepository::new(),
            tigerbeetle_service: TigerBeetleService::new(),
            jwt_secret,
            jwt_expiration_hours,
        }
    }

    /// The user as shown after registration.
    pub fn user_to_response(&self, user: User) -> (res: UserResponse)
        ensures
            user_response_of(user, res),
    {
        UserResponse {
            id: user.id,
            email: user.email,
            first_name: user.first_name,
            last_name: user.last_name,
            document_number: user.document_number,
            phone: user.phone,
            date_of_birth: user.date_of_birth,
        }
    }

    /// The claims for `user`, given the expiry (`None` when it cannot be
    /// represented) and the time of issue.
    pub fn claims_at(&self, user: &User, expiry: Option<Timestamp>, issued: Timestamp) -> (res: Result<TokenClaims, AuthError>)
        ensures
            match expiry {
                None => res matches Err(e) && e == AuthError::InvalidTimestamp,
                Some(x) => res matches Ok(c) && claims_of(*user, x, issued, c),
            },
    {
        match expiry {
            None => Err(AuthError::InvalidTimestamp),
            Some(x) => Ok(TokenClaims {
                sub: user.id,
                exp: x.secs as usize,
                iat: issued.secs as usize,
                email: user.email.clone(),
            }),
        }
    }

    /// The claims of a new access token for `user`: expiring the configured number of hours
    /// from now, issued now. Fails when the expiry leaves the dates that can
    /// be represented.
    pub fn token_claims(&self, user: &User) -> (res: Result<TokenClaims, AuthError>)
        requires
            -max_duration_hours() <= self.jwt_expiration_hours <= max_duration_hours(),
        ensures
            res matches Err(e) ==> e == AuthError::InvalidTimestamp,
            res matches Ok(c) ==> claims_for(*user, self.jwt_expiration_hours, c),
    {
        let issued = now();
        let expiry = checked_add_hours(issued, self.jwt_expiration_hours);
        let res = self.claims_at(user, expiry, issued);
        proof {
            if res is Ok {
                let c = res->Ok_0;
                assert(claims_of(*user, hours_after(issued, self.jwt_expiration_hours), issued, c));
            }
        }
        res
    }

    /// The tokens handed out to `user` once its access token is signed,
    /// the refresh token made at `at`.
    pub fn token_response_at(&self, user: &User, access_token: String, at: Timestamp) -> (res: TokenResponse)
        requires
            -max_duration_hours() <= self.jwt_expiration_hours <= max_duration_hours(),
        ensures
            token_response_of(*user, access_token, at, self.jwt_expiration_hours, res),
    {
        let mut refresh = "refresh_".to_string();
        proof {
            reveal_strlit("refresh_");
            reveal_strlit("_");
            reveal_strlit("Bearer");
        }
        refresh.append(uuid_to_text(user.id).as_str());
        refresh.append("_");
        refresh.append(i64_to_text(at.secs).as_str());
        assert(refresh@ =~= refresh_token_text(user.id, at));
        TokenResponse {
            access_token,
            refresh_token: refresh,
            token_type: "Bearer".to_string(),
            expires_in: self.jwt_expiration_hours * 3600,
            user_id: user.id,
            email: user.email.clone(),
        }
    }

    /// The tokens handed out to `user` once its access token is signed, the
    /// refresh token made now.
    pub fn generate_token_response(&self, user: &User, access_token: String) -> (res: TokenResponse)
        requires
            -max_duration_hours() <= self.jwt_expiration_hours <= max_duration_hours(),
        ensures
            token_response_for(*user, access_token, self.jwt_expiration_hours, res),
    {
        let at = now();
        self.token_response_at(user, access_token, at)
    }

    fn fail(e: AuthError) -> (res: (AuthPhase, AuthAction))
        ensures
            auth_fails(res, e),
    {
        (AuthPhase::Finished, AuthAction::Reply { result: Err(e) })
    }

    fn claims_or_fail(&self, user: User, account_id: Option<u128>) -> (res: (AuthPhase, AuthAction))
        requires
            -max_duration_hours() <= self.jwt_expiration_hours <= max_duration_hours(),
        ensures
            claims_step(self.jwt_expiration_hours, user, res, account_id),
    {
        match self.token_claims(&user) {
            Err(e) => Self::fail(e),
            Ok(claims) => (AuthPhase::AwaitToken { user, account_id }, AuthAction::SignToken { claims }),
        }
    }

    /// Whether the configured token lifetime can be added to an instant.
    pub fn lifetime_in_range(&self) -> (res: bool)
        ensures
            res == hours_in_range(self.jwt_expiration_hours),
    {
        -2562047788015 <= self.jwt_expiration_hours && self.jwt_expiration_hours <= 2562047788015
    }

    /// Whether the next step makes a token, and so uses the token lifetime
    /// (see `signs_token`).
    pub fn step_signs_token(&self, op: &AuthOperation, phase: &AuthPhase, event: &AuthEvent) -> (res: bool)
        ensures
            res == signs_token(*op, *phase, *event),
    {
        match (phase, event) {
            (AuthPhase::AwaitLedgerAccount { .. }, AuthEvent::LedgerAccountCreated(created)) => created.is_ok(),
            (AuthPhase::AwaitUser, AuthEvent::UserFound(Ok(Some(user)))) => {
                if !user.is_active {
                    false
                } else {
                    match op {
                        AuthOperation::Login { request } => match verify_password(
                            request.password.as_str(),
                            user.password_hash.as_str(),
                        ) {
                            Ok(b) => b,
                            Err(_) => false,
                        },
                        AuthOperation::Refresh { .. } => true,
                        _ => false,
                    }
                }
            },
            (AuthPhase::AwaitToken { .. }, AuthEvent::TokenSigned(signed)) => signed.is_ok(),
            _ => false,
        }
    }

    /// One step of a registration, login, logout or renewal (see
    /// `auth_step`). Only a step that makes a token needs the token lifetime
    /// to be representable.
    pub fn step(&self, op: &AuthOperation, phase: AuthPhase, event: AuthEvent) -> (res: (AuthPhase, AuthAction))
        requires
            auth_expects(*op, phase, event),
            signs_token(*op, phase, event) ==> hours_in_range(self.jwt_expiration_hours),
        ensures
            auth_step(self.jwt_expiration_hours, *op, phase, event, res),
    {
        match phase {
            AuthPhase::Start => match op {
                AuthOperation::Register { request } => (
                    AuthPhase::AwaitEmailCheck,
                    AuthAction::CheckEmail { email: request.email.clone() },
                ),
                AuthOperation::Login { request } => (
                    AuthPhase::AwaitUser,
                    AuthAction::FindUserByEmail { email: request.email.clone() },
                ),
                AuthOperation::Logout { user_id } => (AuthPhase::AwaitUser, AuthAction::FindUserById { user_id: *user_id }),
                AuthOperation::Refresh { request } => (
                    AuthPhase::AwaitUser,
                    AuthAction::FindUserById { user_id: request.user_id },
                ),
            },
            AuthPhase::AwaitEmailCheck => {
                let checked = match event {
                    AuthEvent::EmailChecked(c) => c,
                    _ => vstd::pervasive::unreached(),
                };
                let request = match op {
                    AuthOperation::Register { request } => request,
                    _ => vstd::pervasive::unreached(),
                };
                match checked {
                    Err(m) => Self::fail(AuthError::Database(m)),
                    Ok(true) => Self::fail(AuthError::UserExists),
                    Ok(false) => match hash_password(request.password.as_str(), default_cost()) {
                        Err(m) => (AuthPhase::Finished, AuthAction::Reply { result: Err(AuthError::Hash(m)) }),
                        Ok(password_hash) => {
                            let account_id = new_random_id();
                            let user = User {
                                id: new_random_id(),
                                email: request.email.clone(),
                                password_hash,
                                first_name: request.first_name.clone(),
                                last_name: request.last_name.clone(),
                                document_number: request.document_number.clone(),
                                phone: clone_text(&request.phone),
                                date_of_birth: request.date_of_birth,
                                is_active: true,
                                tb_account_id: Some(account_id),
                                created_at: now(),
                                updated_at: now(),
                            };
                            (AuthPhase::AwaitUserInsert { account_id }, AuthAction::InsertUser { user })
                        },
                    },
                }
            },
            AuthPhase::AwaitUserInsert { account_id } => {
                let inserted = match event {
                    AuthEvent::UserInserted(i) => i,
                    _ => vstd::pervasive::unreached(),
                };
                match inserted {
                    Err(m) => Self::fail(AuthError::Database(m)),
                    Ok(user) => {
                        let account = self.tigerbeetle_service.account_record(account_id, user.id);
                        (AuthPhase::AwaitLedgerAccount { account_id, user }, AuthAction::CreateLedgerAccount { account })
                    },
                }
            },
            AuthPhase::AwaitLedgerAccount { account_id, user } => {
                let created = match event {
                    AuthEvent::LedgerAccountCreated(c) => c,
                    _ => vstd::pervasive::unreached(),
                };
                match created {
                    Err(m) => Self::fail(AuthError::Ledger(m)),
                    Ok(_) => self.claims_or_fail(user, Some(account_id)),
                }
            },
            AuthPhase::AwaitUser => {
                let found = match event {
                    AuthEvent::UserFound(f) => f,
                    _ => vstd::pervasive::unreached(),
                };
                match found {
                    Err(m) => Self::fail(AuthError::Database(m)),
                    Ok(None) => match op {
                        AuthOperation::Login { .. } => Self::fail(AuthError::InvalidCredentials),
                        _ => Self::fail(AuthError::UserNotFound),
                    },
                    Ok(Some(user)) => match op {
                        AuthOperation::Login { request } => {
                            match verify_password(request.password.as_str(), user.password_hash.as_str()) {
                                Err(m) => (AuthPhase::Finished, AuthAction::Reply { result: Err(AuthError::Hash(m)) }),
                                Ok(false) => Self::fail(AuthError::InvalidCredentials),
                                Ok(true) => {
                                    if !user.is_active {
                                        Self::fail(AuthError::Inactive)
                                    } else {
                                        self.claims_or_fail(user, None)
                                    }
                                },
                            }
                        },
                        AuthOperation::Refresh { .. } => {
                            if !user.is_active {
                                Self::fail(AuthError::Inactive)
                            } else {
                                self.claims_or_fail(user, None)
                            }
                        },
                        AuthOperation::Logout { user_id } => {
                            proof {
                                reveal_strlit("Sesión cerrada exitosamente");
                            }
                            let r = LogoutResponse {
                                message: "Sesión cerrada exitosamente".to_string(),
                                user_id: *user_id,
                                timestamp: now(),
                            };
                            (AuthPhase::Finished, AuthAction::Reply { result: Ok(AuthReply::Logout(r)) })
                        },
                        _ => vstd::pervasive::unreached(),
                    },
                }
            },
            AuthPhase::AwaitToken { user, account_id } => {
                let signed = match event {
                    AuthEvent::TokenSigned(s) => s,
                    _ => vstd::pervasive::unreached(),
                };
                match signed {
                    Err(m) => Self::fail(AuthError::Token(m)),
                    Ok(token) => match account_id {
                        None => {
                            let at = now();
                            let ghost u = user;
                            let ghost tk = token;
                            let t = self.token_response_at(&user, token, at);
                            assert(token_response_of(u, tk, at, self.jwt_expiration_hours, t));
                            (AuthPhase::Finished, AuthAction::Reply { result: Ok(AuthReply::Token(t)) })
                        },
                        Some(a) => {
                            proof {
                                reveal_strlit("Savings");
                                reveal_strlit("USD");
                            }
                            let at = now();
                            let ghost u = user;
                            let ghost tk = token;
                            let tokens = self.token_response_at(&user, token, at);
                            let account = AccountResponse {
                                id: a,
                                account_number: self.tigerbeetle_service.generate_account_number(user.id),
                                account_type: "Savings".to_string(),
                                currency: "USD".to_string(),
                                current_balance: 0,
                            };
                            let r = RegisterResponse { user: self.user_to_response(user), account, tokens };
                            assert(token_response_of(u, tk, at, self.jwt_expiration_hours, r.tokens));
                            (AuthPhase::Finished, AuthAction::Reply { result: Ok(AuthReply::Register(r)) })
                        },
                    },
                }
            },
            AuthPhase::Finished => vstd::pervasive::unreached(),
        }
    }
}

} // verus!
