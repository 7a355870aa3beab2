use vstd::prelude::*;

use crate::clock::{CalendarDate, Timestamp};
use crate::models::validation::{
    length_violation, optional_length_violation, range_violation, email_is_valid, validation_result,
    Checker, Rule, ValidationErrors,
};

pub use crate::models::api::account::AccountResponse;

verus! {

/// A registration: the new user's data.
pub struct CreateUserRequest {
    pub email: String,
    pub password: String,
    pub first_name: String,
    pub last_name: String,
    pub document_number: String,
    pub phone: Option<String>,
    pub date_of_birth: CalendarDate,
    pub tb_account_id: Option<u128>,
}

/// A login: e-mail and password.
pub struct LoginRequest {
    pub email: String,
    pub password: String,
}

/// A refresh token handed in for renewal.
pub struct RefreshTokenRequest {
    pub refresh_token: String,
}

/// A change of password.
pub struct ChangePasswordRequest {
    pub current_password: String,
    pub new_password: String,
}

/// The rules a registration keeps.
pub open spec fn create_user_violations(r: CreateUserRequest) -> Seq<(Seq<char>, Rule)> {
    (if email_is_valid(r.email@) {
        Seq::<(Seq<char>, Rule)>::empty()
    } else {
        seq![("email"@, Rule::Email)]
    }) + length_violation("email"@, r.email@, None, Some(255u64))
        + length_violation("password"@, r.password@, Some(8u64), Some(100u64))
        + length_violation("first_name"@, r.first_name@, Some(1u64), Some(100u64))
        + length_violation("last_name"@, r.last_name@, Some(1u64), Some(100u64))
        + length_violation("document_number"@, r.document_number@, Some(5u64), Some(50u64))
        + optional_length_violation("phone"@, r.phone, None, Some(20u64))
}

/// The rules a login keeps.
pub open spec fn login_violations(r: LoginRequest) -> Seq<(Seq<char>, Rule)> {
    (if email_is_valid(r.email@) {
        Seq::<(Seq<char>, Rule)>::empty()
    } else {
        seq![("email"@, Rule::Email)]
    }) + length_violation("password"@, r.password@, Some(1u64), None)
}

/// The rules a change of password keeps.
pub open spec fn change_password_violations(r: ChangePasswordRequest) -> Seq<(Seq<char>, Rule)> {
    length_violation("current_password"@, r.current_password@, Some(8u64), None)
        + length_violation("new_password"@, r.new_password@, Some(8u64), None)
}

impl CreateUserRequest {
    /// The request's broken rules, if any.
    pub fn validate(&self) -> (res: Result<(), ValidationErrors>)
        ensures
            validation_result(res) == create_user_violations(*self),
            res is Ok <==> create_user_violations(*self).len() == 0,
    {
        let mut c = Checker::new();
        assert(c.seen() =~= Seq::<(Seq<char>, Rule)>::empty());
        c.email("email", self.email.as_str());
        c.length("email", self.email.as_str(), None, Some(255));
        c.length("password", self.password.as_str(), Some(8), Some(100));
        c.length("first_name", self.first_name.as_str(), Some(1), Some(100));
        c.length("last_name", self.last_name.as_str(), Some(1), Some(100));
        c.length("document_number", self.document_number.as_str(), Some(5), Some(50));
        c.optional_length("phone", &self.phone, None, Some(20));
        assert(c.seen() =~= create_user_violations(*self));
        c.finish()
    }
}

impl LoginRequest {
    /// The request's broken rules, if any.
    pub fn validate(&self) -> (res: Result<(), ValidationErrors>)
        ensures
            validation_result(res) == login_violations(*self),
            res is Ok <==> login_violations(*self).len() == 0,
    {
        let mut c = Checker::new();
        assert(c.seen() =~= Seq::<(Seq<char>, Rule)>::empty());
        c.email("email", self.email.as_str());
        c.length("password", self.password.as_str(), Some(1), None);
        assert(c.seen() =~= login_violations(*self));
        c.finish()
    }
}

impl RefreshTokenRequest {
    /// A refresh token request has no rules: it is always valid.
    pub fn validate(&self) -> (res: Result<(), ValidationErrors>)
        ensures
            res is Ok,
    {
        Ok(())
    }
}

impl ChangePasswordRequest {
    /// The request's broken rules, if any.
    pub fn validate(&self) -> (res: Result<(), ValidationErrors>)
        ensures
            validation_result(res) == change_password_violations(*self),
            res is Ok <==> change_password_violations(*self).len() == 0,
    {
        let mut c = Checker::new();
        assert(c.seen() =~= Seq::<(Seq<char>, Rule)>::empty());
        c.length("current_password", self.current_password.as_str(), Some(8), None);
        c.length("new_password", self.new_password.as_str(), Some(8), None);
        assert(c.seen() =~= change_password_violations(*self));
        c.finish()
    }
}

/// The tokens handed out at login, registration and refresh.
pub struct TokenResponse {
    pub access_token: String,
    pub refresh_token: String,
    pub token_type: String,
    /// Lifetime of the access token in seconds.
    pub expires_in: i64,
    pub user_id: u128,
    pub email: String,
}

/// The user as shown after registration.
pub struct UserResponse {
    pub id: u128,
    pub email: String,
    pub first_name: String,
    pub last_name: String,
    pub document_number: String,
    pub phone: Option<String>,
    pub date_of_birth: CalendarDate,
}

/// The answer to a registration.
pub struct RegisterResponse {
    pub user: UserResponse,
    pub account: AccountResponse,
    pub tokens: TokenResponse,
}

/// The claims signed into an access token.
pub struct TokenClaims {
    /// The user's id.
    pub sub: u128,
    /// Expiry, seconds since the epoch.
    pub exp: usize,
    /// Issue time, seconds since the epoch.
    pub iat: usize,
    pub email: String,
}

/// A request to renew the tokens of a user.
pub struct RefreshRequest {
    pub user_id: u128,
    pub refresh_token: String,
}

/// The answer to a logout.
pub struct LogoutResponse {
    pub message: String,
    pub user_id: u128,
    pub timestamp: Timestamp,
}

} // verus!
