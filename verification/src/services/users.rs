use vstd::prelude::*;

use crate::clock::now;
use crate::models::api::account::AccountResponse;
use crate::models::api::users::{UpdateUserRequest, UserAccountsResponse, UserResponse};
use crate::models::database::User;
use crate::repositories::UserRepository;
use crate::services::tigerbeetle_service::{
    account_from_lookup_spec, account_number_text, available_balance, LedgerAccount, LedgerError, TigerBeetleService,
};

verus! {

/// Why a profile operation failed.
pub enum UserError {
    /// The database failed, with this message.
    Database(String),
    /// The ledger failed or has no such account.
    Ledger(LedgerError),
    NotFound,
    /// The user has no ledger account.
    NotLinked,
}

impl UserError {
    /// The message of the failure.
    pub fn message(&self) -> (res: String)
        ensures
            res@ == match self {
                UserError::Database(m) => m@,
                UserError::Ledger(e) => crate::services::tigerbeetle_service::ledger_error_text(*e),
                UserError::NotFound => "Usuario no encontrado"@,
                UserError::NotLinked => "Usuario no tiene una cuenta de TigerBeetle vinculada"@,
            },
    {
        match self {
            UserError::Database(m) => m.clone(),
            UserError::Ledger(e) => e.message(),
            UserError::NotFound => "Usuario no encontrado".to_string(),
            UserError::NotLinked => "Usuario no tiene una cuenta de TigerBeetle vinculada".to_string(),
        }
    }
}

/// The profile shown for a stored user: all its fields but the password
/// hash, the ledger account and the time of the last change.
pub open spec fn profile_of(u: User, r: UserResponse) -> bool {
    &&& r.id == u.id
    &&& r.email == u.email
    &&& r.first_name == u.first_name
    &&& r.last_name == u.last_name
    &&& r.document_number == u.document_number
    &&& r.phone == u.phone
    &&& r.date_of_birth == u.date_of_birth
    &&& r.is_active == u.is_active
    &&& r.created_at == u.created_at
}

/// The user after a profile change: each field that the request carries
/// replaces the stored one; nothing else changes but the time of the last
/// change.
pub open spec fn updated_user(before: User, request: UpdateUserRequest, after: User) -> bool {
    &&& after.id == before.id
    &&& after.email == before.email
    &&& after.password_hash == before.password_hash
    &&& after.first_name == match request.first_name {
        Some(n) => n,
        None => before.first_name,
    }
    &&& after.last_name == match request.last_name {
        Some(n) => n,
        None => before.last_name,
    }
    &&& after.phone == match request.phone {
        Some(p) => Some(p),
        None => before.phone,
    }
    &&& after.document_number == before.document_number
    &&& after.date_of_birth == before.date_of_birth
    &&& after.is_active == before.is_active
    &&& after.tb_account_id == before.tb_account_id
    &&& after.created_at == before.created_at
    &&& after.updated_at.nanos < 1_000_000_000
}

/// Sending the same profile change twice shows the same profile: the second
/// change, made to the record the first one stored, leaves every shown field
/// as the first left it.
pub proof fn law_repeated_update_shows_same_profile(
    before: User,
    request: UpdateUserRequest,
    once: User,
    twice: User,
    shown: UserResponse,
)
    requires
        updated_user(before, request, once),
        updated_user(once, request, twice),
    ensures
        profile_of(once, shown) <==> profile_of(twice, shown),
{
}

/// A profile operation, carried out step by step.
pub enum UserOperation {
    /// The caller's profile.
    GetCurrentUser { user_id: u128 },
    /// A change of the caller's profile.
    UpdateUser { user_id: u128, request: UpdateUserRequest },
    /// The caller's profile with its account.
    GetUserWithAccounts { user_id: u128 },
    /// Deactivation of the caller.
    DeactivateUser { user_id: u128 },
}

/// Where an operation stands.
pub enum UserPhase {
    Start,
    /// Asked for the user record.
    AwaitUser,
    /// Sent the changed record.
    AwaitUpdate,
    /// Looked the user's linked ledger account up.
    AwaitAccount { user: User, account: u128 },
    /// Looked it up again, for its balance.
    AwaitBalance { user: User, account: u128 },
    /// Asked for the deactivation.
    AwaitDeactivation,
    Finished,
}

/// What the database or the ledger answered.
pub enum UserEvent {
    Begin,
    UserFound(Result<Option<User>, String>),
    UserUpdated(Result<User, String>),
    AccountsFound(Result<Vec<LedgerAccount>, String>),
    Deactivated(Result<(), String>),
}

/// The answer of an operation.
pub enum UserReply {
    Profile(UserResponse),
    ProfileWithAccounts(UserAccountsResponse),
    Deactivated,
}

/// What to do next.
pub enum UserAction {
    FindUser { user_id: u128 },
    UpdateUser { user: User },
    LookupAccount { account_id: u128 },
    DeactivateUser { user_id: u128 },
    Reply { result: Result<UserReply, UserError> },
}

/// The events each phase waits for.
pub open spec fn user_expects(op: UserOperation, phase: UserPhase, event: UserEvent) -> bool {
    match phase {
        UserPhase::Start => event is Begin,
        UserPhase::AwaitUser => event is UserFound && !(op is DeactivateUser),
        UserPhase::AwaitUpdate => event is UserUpdated && op is UpdateUser,
        UserPhase::AwaitAccount { .. } => event is AccountsFound && op is GetUserWithAccounts,
        UserPhase::AwaitBalance { .. } => event is AccountsFound && op is GetUserWithAccounts,
        UserPhase::AwaitDeactivation => event is Deactivated && op is DeactivateUser,
        UserPhase::Finished => false,
    }
}

/// The user the operation is for.
pub open spec fn user_op_id(op: UserOperation) -> u128 {
    match op {
        UserOperation::GetCurrentUser { user_id } => user_id,
        UserOperation::UpdateUser { user_id, .. } => user_id,
        UserOperation::GetUserWithAccounts { user_id } => user_id,
        UserOperation::DeactivateUser { user_id } => user_id,
    }
}

/// Answer with a failure.
pub open spec fn user_fails(res: (UserPhase, UserAction), e: UserError) -> bool {
    res.0 is Finished && (res.1 matches UserAction::Reply { result: Err(f) } && f == e)
}

/// The account shown with a profile: the user's linked ledger account
/// `account`, the number made from the user's id, a savings account in
/// dollars, and its balance.
pub open spec fn shown_account(user_id: u128, account: u128, a: LedgerAccount, r: AccountResponse) -> bool {
    &&& r.id == account
    &&& r.account_number@ == account_number_text(user_id)
    &&& r.account_type@ == "Savings"@
    &&& r.currency@ == "USD"@
    &&& r.current_balance == available_balance(a) as i64
}

/// One step of a profile operation.
pub open spec fn user_step(op: UserOperation, phase: UserPhase, event: UserEvent, res: (UserPhase, UserAction)) -> bool {
    match (phase, event) {
        (UserPhase::Start, _) => match op {
            UserOperation::DeactivateUser { user_id } => res.0 is AwaitDeactivation && (res.1 matches UserAction::DeactivateUser {
                user_id: id,
            } && id == user_id),
            _ => res.0 is AwaitUser && (res.1 matches UserAction::FindUser { user_id: id } && id == user_op_id(op)),
        },
        (UserPhase::AwaitUser, UserEvent::UserFound(found)) => match found {
            Err(m) => user_fails(res, UserError::Database(m)),
            Ok(None) => user_fails(res, UserError::NotFound),
            Ok(Some(user)) => match op {
                UserOperation::GetCurrentUser { .. } => res.0 is Finished && (res.1 matches UserAction::Reply {
                    result: Ok(UserReply::Profile(r)),
                } && profile_of(user, r)),
                UserOperation::UpdateUser { request, .. } => res.0 is AwaitUpdate && (res.1 matches UserAction::UpdateUser {
                    user: changed,
                } && updated_user(user, request, changed)),
                UserOperation::GetUserWithAccounts { .. } => match user.tb_account_id {
                    None => user_fails(res, UserError::NotLinked),
                    Some(linked) => (res.0 matches UserPhase::AwaitAccount { user: u, account } && u == user && account
                        == linked) && (res.1 matches UserAction::LookupAccount { account_id } && account_id == linked),
                },
                _ => false,
            },
        },
        (UserPhase::AwaitUpdate, UserEvent::UserUpdated(updated)) => match updated {
            Err(m) => user_fails(res, UserError::Database(m)),
            Ok(user) => res.0 is Finished && (res.1 matches UserAction::Reply { result: Ok(UserReply::Profile(r)) }
                && profile_of(user, r)),
        },
        (UserPhase::AwaitAccount { user, account }, UserEvent::AccountsFound(found)) => match account_from_lookup_spec(
            found,
        ) {
            Err(e) => user_fails(res, UserError::Ledger(e)),
            Ok(_) => (res.0 matches UserPhase::AwaitBalance { user: u, account: b } && u == user && b == account) && (
            res.1 matches UserAction::LookupAccount { account_id } && account_id == account),
        },
        (UserPhase::AwaitBalance { user, account }, UserEvent::AccountsFound(found)) => match account_from_lookup_spec(
            found,
        ) {
            Err(e) => user_fails(res, UserError::Ledger(e)),
            Ok(a) => res.0 is Finished && (res.1 matches UserAction::Reply {
                result: Ok(UserReply::ProfileWithAccounts(r)),
            } && profile_of(user, r.user) && r.accounts@.len() == 1 && shown_account(
                user_op_id(op),
                account,
                a,
                r.accounts@[0],
            )),
        },
        (UserPhase::AwaitDeactivation, UserEvent::Deactivated(done)) => match done {
            Err(m) => user_fails(res, UserError::Database(m)),
            Ok(_) => res.0 is Finished && (res.1 matches UserAction::Reply { result: Ok(UserReply::Deactivated) }),
        },
        _ => false,
    }
}

/// The caller's profile: reading, changing, showing with its account, and
/// deactivating.
pub struct UserService {
    pub user_repository: UserRepository,
    pub tigerbeetle_service: TigerBeetleService,
}

impl UserService {
    pub fn new() -> (res: UserService) {
        UserService { user_repository: UserRepository::new(), tigerbeetle_service: TigerBeetleService::new() }
    }

    /// The profile shown for a stored user.
    pub fn user_to_response(&self, user: User) -> (res: UserResponse)
        ensures
            profile_of(user, res),
    {
        UserResponse {
            id: user.id,
            email: user.email,
            first_name: user.first_name,
            last_name: user.last_name,
            document_number: user.document_number,
            phone: user.phone,
            date_of_birth: user.date_of_birth,
            is_active: user.is_active,
            created_at: user.created_at,
        }
    }

    /// The user after a profile change, stamped with the current time.
    pub fn apply_update(&self, user: User, request: &UpdateUserRequest) -> (res: User)
        ensures
            updated_user(user, *request, res),
    {
        let mut user = user;
        match &request.first_name {
            Some(n) => {
                user.first_name = n.clone();
            },
            None => {},
        }
        match &request.last_name {
            Some(n) => {
                user.last_name = n.clone();
            },
            None => {},
        }
        match &request.phone {
            Some(p) => {
                user.phone = Some(p.clone());
            },
            None => {},
        }
        user.updated_at = now();
        user
    }

    fn fail(e: UserError) -> (res: (UserPhase, UserAction))
        ensures
            user_fails(res, e),
    {
        (UserPhase::Finished, UserAction::Reply { result: Err(e) })
    }

    /// One step of a profile operation (see `user_step`).
    pub fn step(&self, op: &UserOperation, phase: UserPhase, event: UserEvent) -> (res: (UserPhase, UserAction))
        requires
            user_expects(*op, phase, event),
        ensures
            user_step(*op, phase, event, res),
    {
        match phase {
            UserPhase::Start => match op {
                UserOperation::DeactivateUser { user_id } => (
                    UserPhase::AwaitDeactivation,
                    UserAction::DeactivateUser { user_id: *user_id },
                ),
                UserOperation::GetCurrentUser { user_id } => (UserPhase::AwaitUser, UserAction::FindUser { user_id: *user_id }),
                UserOperation::UpdateUser { user_id, .. } => (UserPhase::AwaitUser, UserAction::FindUser { user_id: *user_id }),
                UserOperation::GetUserWithAccounts { user_id } => (
                    UserPhase::AwaitUser,
                    UserAction::FindUser { user_id: *user_id },
                ),
            },
            UserPhase::AwaitUser => {
                let found = match event {
                    UserEvent::UserFound(f) => f,
                    _ => vstd::pervasive::unreached(),
                };
                match found {
                    Err(m) => Self::fail(UserError::Database(m)),
                    Ok(None) => Self::fail(UserError::NotFound),
                    Ok(Some(user)) => match op {
                        UserOperation::GetCurrentUser { .. } => {
                            let r = self.user_to_response(user);
                            (UserPhase::Finished, UserAction::Reply { result: Ok(UserReply::Profile(r)) })
                        },
                        UserOperation::UpdateUser { request, .. } => {
                            let changed = self.apply_update(user, request);
                            (UserPhase::AwaitUpdate, UserAction::UpdateUser { user: changed })
                        },
                        UserOperation::GetUserWithAccounts { .. } => match user.tb_account_id {
                            None => Self::fail(UserError::NotLinked),
                            Some(account) => (
                                UserPhase::AwaitAccount { user, account },
                                UserAction::LookupAccount { account_id: account },
                            ),
                        },
                        _ => vstd::pervasive::unreached(),
                    },
                }
            },
            UserPhase::AwaitUpdate => {
                let updated = match event {
                    UserEvent::UserUpdated(u) => u,
                    _ => vstd::pervasive::unreached(),
                };
                match updated {
                    Err(m) => Self::fail(UserError::Database(m)),
                    Ok(user) => {
                        let r = self.user_to_response(user);
                        (UserPhase::Finished, UserAction::Reply { result: Ok(UserReply::Profile(r)) })
                    },
                }
            },
            UserPhase::AwaitAccount { user, account } => {
                let found = match event {
                    UserEvent::AccountsFound(f) => f,
                    _ => vstd::pervasive::unreached(),
                };
                match self.tigerbeetle_service.account_from_lookup(found) {
                    Err(e) => Self::fail(UserError::Ledger(e)),
                    Ok(_) => (UserPhase::AwaitBalance { user, account }, UserAction::LookupAccount { account_id: account }),
                }
            },
            UserPhase::AwaitBalance { user, account: linked } => {
                let found = match event {
                    UserEvent::AccountsFound(f) => f,
                    _ => vstd::pervasive::unreached(),
                };
                let user_id = match op {
                    UserOperation::GetUserWithAccounts { user_id } => *user_id,
                    _ => vstd::pervasive::unreached(),
                };
                match self.tigerbeetle_service.account_from_lookup(found) {
                    Err(e) => Self::fail(UserError::Ledger(e)),
                    Ok(a) => {
                        let balance = self.tigerbeetle_service.balance_of(&a);
                        proof {
                            reveal_strlit("Savings");
                            reveal_strlit("USD");
                        }
                        let account = AccountResponse {
                            id: linked,
                            account_number: self.tigerbeetle_service.generate_account_number(user_id),
                            account_type: "Savings".to_string(),
                            currency: "USD".to_string(),
                            current_balance: balance as i64,
                        };
                        let mut accounts: Vec<AccountResponse> = Vec::new();
                        accounts.push(account);
                        let r = UserAccountsResponse { user: self.user_to_response(user), accounts };
                        (UserPhase::Finished, UserAction::Reply { result: Ok(UserReply::ProfileWithAccounts(r)) })
                    },
                }
            },
            UserPhase::AwaitDeactivation => {
                let done = match event {
                    UserEvent::Deactivated(d) => d,
                    _ => vstd::pervasive::unreached(),
                };
                match done {
                    Err(m) => Self::fail(UserError::Database(m)),
                    Ok(_) => (UserPhase::Finished, UserAction::Reply { result: Ok(UserReply::Deactivated) }),
                }
            },
            UserPhase::Finished => vstd::pervasive::unreached(),
        }
    }
}

} // verus!
