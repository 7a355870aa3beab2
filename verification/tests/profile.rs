use sistema_bancario_hnl::clock::{CalendarDate, Timestamp};
use sistema_bancario_hnl::handlers::users::{deactivation_message, invalid_profile_status, profile_failure_status};
use sistema_bancario_hnl::models::api::users::UpdateUserRequest;
use sistema_bancario_hnl::models::database::User;
use sistema_bancario_hnl::services::tigerbeetle_service::{LedgerAccount, LedgerError};
use sistema_bancario_hnl::services::users::{
    UserAction, UserError, UserEvent, UserOperation, UserPhase, UserReply, UserService,
};

const ID: u128 = 123_456_789_012;

fn stored() -> User {
    let t = Timestamp { secs: 1_600_000_000, nanos: 7 };
    User {
        id: ID,
        email: "ana@example.com".to_string(),
        password_hash: "hash".to_string(),
        first_name: "Ana".to_string(),
        last_name: "Lopez".to_string(),
        document_number: "0801199912345".to_string(),
        phone: Some("+50411112222".to_string()),
        date_of_birth: CalendarDate { year: 1995, month: 7, day: 19 },
        is_active: true,
        tb_account_id: Some(ID),
        created_at: t,
        updated_at: t,
    }
}

#[test]
fn profile_hides_the_password_hash() {
    let svc = UserService::new();
    let r = svc.user_to_response(stored());
    assert_eq!(r.id, ID);
    assert_eq!(r.email, "ana@example.com");
    assert_eq!(r.first_name, "Ana");
    assert_eq!(r.phone, Some("+50411112222".to_string()));
    assert!(r.is_active);
    assert_eq!(r.created_at, Timestamp { secs: 1_600_000_000, nanos: 7 });
}

#[test]
fn update_replaces_only_the_fields_given() {
    let svc = UserService::new();
    let request = UpdateUserRequest { first_name: Some("Maria".to_string()), last_name: None, phone: None };
    let u = svc.apply_update(stored(), &request);
    assert_eq!(u.first_name, "Maria");
    assert_eq!(u.last_name, "Lopez");
    assert_eq!(u.phone, Some("+50411112222".to_string()));
    assert_eq!(u.email, "ana@example.com");
    assert_eq!(u.password_hash, "hash");
    assert_eq!(u.created_at, Timestamp { secs: 1_600_000_000, nanos: 7 });
    assert!(u.updated_at.secs > 1_600_000_000);
}

#[test]
fn get_current_user_flow() {
    let svc = UserService::new();
    let op = UserOperation::GetCurrentUser { user_id: ID };
    let (p, a) = svc.step(&op, UserPhase::Start, UserEvent::Begin);
    assert!(matches!(p, UserPhase::AwaitUser));
    assert!(matches!(a, UserAction::FindUser { user_id: ID }));
    let (p, a) = svc.step(&op, p, UserEvent::UserFound(Ok(Some(stored()))));
    assert!(matches!(p, UserPhase::Finished));
    match a {
        UserAction::Reply { result: Ok(UserReply::Profile(r)) } => assert_eq!(r.last_name, "Lopez"),
        _ => panic!("expected the profile"),
    }
}

#[test]
fn missing_user_is_not_found() {
    let svc = UserService::new();
    let op = UserOperation::GetCurrentUser { user_id: ID };
    let (_, a) = svc.step(&op, UserPhase::AwaitUser, UserEvent::UserFound(Ok(None)));
    match a {
        UserAction::Reply { result: Err(e) } => {
            assert!(matches!(e, UserError::NotFound));
            assert_eq!(e.message(), "Usuario no encontrado");
        },
        _ => panic!("expected a failure"),
    }
    let (_, a) = svc.step(&op, UserPhase::AwaitUser, UserEvent::UserFound(Err("db down".to_string())));
    match a {
        UserAction::Reply { result: Err(e) } => assert_eq!(e.message(), "db down"),
        _ => panic!("expected a failure"),
    }
    assert_eq!(profile_failure_status(), 404);
    assert_eq!(invalid_profile_status(), 400);
}

#[test]
fn update_user_flow() {
    let svc = UserService::new();
    let request = UpdateUserRequest { first_name: None, last_name: Some("Mejia".to_string()), phone: Some("+504".to_string()) };
    let op = UserOperation::UpdateUser { user_id: ID, request };
    let (p, _) = svc.step(&op, UserPhase::Start, UserEvent::Begin);
    let (p, a) = svc.step(&op, p, UserEvent::UserFound(Ok(Some(stored()))));
    assert!(matches!(p, UserPhase::AwaitUpdate));
    let changed = match a {
        UserAction::UpdateUser { user } => user,
        _ => panic!("expected the changed record"),
    };
    assert_eq!(changed.first_name, "Ana");
    assert_eq!(changed.last_name, "Mejia");
    assert_eq!(changed.phone, Some("+504".to_string()));
    let (p, a) = svc.step(&op, p, UserEvent::UserUpdated(Ok(changed)));
    assert!(matches!(p, UserPhase::Finished));
    match a {
        UserAction::Reply { result: Ok(UserReply::Profile(r)) } => assert_eq!(r.last_name, "Mejia"),
        _ => panic!("expected the profile"),
    }
}

#[test]
fn user_with_accounts_flow() {
    const LINKED: u128 = 0xfeed;
    let svc = UserService::new();
    let op = UserOperation::GetUserWithAccounts { user_id: ID };
    let (p, _) = svc.step(&op, UserPhase::Start, UserEvent::Begin);
    let mut u = stored();
    u.tb_account_id = Some(LINKED);
    let (p, a) = svc.step(&op, p, UserEvent::UserFound(Ok(Some(u))));
    assert!(matches!(a, UserAction::LookupAccount { account_id: LINKED }));
    let acct = LedgerAccount { id: LINKED, user_data_128: ID, ledger: 1, code: 1, credits_posted: 5000, debits_posted: 1200 };
    let (p, a) = svc.step(&op, p, UserEvent::AccountsFound(Ok(vec![acct])));
    assert!(matches!(a, UserAction::LookupAccount { account_id: LINKED }));
    let (p, a) = svc.step(&op, p, UserEvent::AccountsFound(Ok(vec![acct])));
    assert!(matches!(p, UserPhase::Finished));
    match a {
        UserAction::Reply { result: Ok(UserReply::ProfileWithAccounts(r)) } => {
            assert_eq!(r.user.id, ID);
            assert_eq!(r.accounts.len(), 1);
            assert_eq!(r.accounts[0].id, LINKED);
            assert_eq!(r.accounts[0].account_number, "001-56789012");
            assert_eq!(r.accounts[0].account_type, "Savings");
            assert_eq!(r.accounts[0].currency, "USD");
            assert_eq!(r.accounts[0].current_balance, 3800);
        },
        _ => panic!("expected the profile with its account"),
    }
}

#[test]
fn user_without_linked_account() {
    let svc = UserService::new();
    let op = UserOperation::GetUserWithAccounts { user_id: ID };
    let mut u = stored();
    u.tb_account_id = None;
    let (p, a) = svc.step(&op, UserPhase::AwaitUser, UserEvent::UserFound(Ok(Some(u))));
    assert!(matches!(p, UserPhase::Finished));
    match a {
        UserAction::Reply { result: Err(e) } => {
            assert!(matches!(e, UserError::NotLinked));
            assert_eq!(e.message(), "Usuario no tiene una cuenta de TigerBeetle vinculada");
        },
        _ => panic!("expected a failure"),
    }
}

#[test]
fn user_with_missing_ledger_account() {
    let svc = UserService::new();
    let op = UserOperation::GetUserWithAccounts { user_id: ID };
    let (_, a) = svc.step(&op, UserPhase::AwaitAccount { user: stored(), account: ID }, UserEvent::AccountsFound(Ok(vec![])));
    match a {
        UserAction::Reply { result: Err(UserError::Ledger(e)) } => {
            assert!(matches!(e, LedgerError::NotFound));
            assert_eq!(e.message(), "Cuenta no encontrada en TigerBeetle");
        },
        _ => panic!("expected a ledger failure"),
    }
}

#[test]
fn deactivate_user_flow() {
    let svc = UserService::new();
    let op = UserOperation::DeactivateUser { user_id: ID };
    let (p, a) = svc.step(&op, UserPhase::Start, UserEvent::Begin);
    assert!(matches!(p, UserPhase::AwaitDeactivation));
    assert!(matches!(a, UserAction::DeactivateUser { user_id: ID }));
    let (p, a) = svc.step(&op, p, UserEvent::Deactivated(Ok(())));
    assert!(matches!(p, UserPhase::Finished));
    assert!(matches!(a, UserAction::Reply { result: Ok(UserReply::Deactivated) }));
    assert_eq!(deactivation_message(), "Usuario desactivado exitosamente");
}

#[test]
fn adulthood_and_documents() {
    let mut u = stored();
    u.date_of_birth = CalendarDate { year: 2008, month: 3, day: 1 };
    assert!(u.is_adult_on(CalendarDate { year: 2026, month: 3, day: 1 }));
    assert!(!u.is_adult_on(CalendarDate { year: 2026, month: 2, day: 28 }));
    assert!(u.is_adult_on(CalendarDate { year: 2027, month: 1, day: 1 }));
    u.date_of_birth = CalendarDate { year: 2004, month: 2, day: 29 };
    assert!(!u.is_adult_on(CalendarDate { year: 2022, month: 2, day: 28 }));
    assert!(u.is_adult_on(CalendarDate { year: 2022, month: 3, day: 1 }));
    u.date_of_birth = CalendarDate { year: 2000, month: 4, day: 9 };
    assert!(u.is_adult());
    assert!(u.is_valid_document());
    u.document_number = "0801-1999".to_string();
    assert!(!u.is_valid_document());
    u.document_number = "ÁB12".to_string();
    assert!(u.is_valid_document());
    u.document_number = String::new();
    assert!(u.is_valid_document());
}

#[test]
fn repeated_update_shows_same_profile() {
    let svc = UserService::new();
    let request = UpdateUserRequest { first_name: Some("Maria".to_string()), last_name: None, phone: Some("+504".to_string()) };
    let once = svc.apply_update(stored(), &request);
    let twice = svc.apply_update(svc.apply_update(stored(), &request), &request);
    let a = svc.user_to_response(once);
    let b = svc.user_to_response(twice);
    assert_eq!((a.id, a.email, a.first_name, a.last_name), (b.id, b.email, b.first_name, b.last_name));
    assert_eq!((a.document_number, a.phone, a.date_of_birth), (b.document_number, b.phone, b.date_of_birth));
    assert_eq!((a.is_active, a.created_at), (b.is_active, b.created_at));
}
