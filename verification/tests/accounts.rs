use sistema_bancario_hnl::handlers::accounts::{deposit_operation, transfer_operation, withdraw_operation};
use sistema_bancario_hnl::clock::{CalendarDate, Timestamp};
use sistema_bancario_hnl::config::{Config, ConfigVars};
use sistema_bancario_hnl::handlers::accounts::{
    check_account_access, deposit_failure, get_account_failure, get_balance_failure, invalid_input, transfer_failure,
    withdraw_failure,
};
use sistema_bancario_hnl::models::api::account::{DepositRequest, TransferRequest, WithdrawRequest};
use sistema_bancario_hnl::models::database::User;
use sistema_bancario_hnl::services::accounts::{
    AccountAction, AccountError, AccountEvent, AccountOperation, AccountPhase, AccountReply, AccountService,
};
use sistema_bancario_hnl::services::tigerbeetle_service::{LedgerAccount, LedgerError};

const USER: u128 = 0x1111;
const ACCT: u128 = 0xaaaa;
const BANK: u128 = 0xbbbb;
const OTHER: u128 = 0xcccc;

fn config(bank: Option<u128>) -> Config {
    let mut c = Config::from_vars(ConfigVars {
        database_url: Some("postgres://x".to_string()),
        jwt_secret: Some("k".to_string()),
        host: None,
        port: None,
        tigerbeetle_address: None,
        tigerbeetle_cluster_id: None,
        tigerbeetle_replica_id: None,
        jwt_expiration_hours: None,
        bcrypt_cost: None,
        bank_account_uuid: None,
        bank_initial_balance: None,
    })
    .ok()
    .unwrap();
    c.bank_account_uuid = bank;
    c
}

fn user(linked: Option<u128>) -> User {
    let t = Timestamp { secs: 1_700_000_000, nanos: 0 };
    User {
        id: USER,
        email: "ana@example.com".to_string(),
        password_hash: "h".to_string(),
        first_name: "Ana".to_string(),
        last_name: "Lopez".to_string(),
        document_number: "ABC123".to_string(),
        phone: None,
        date_of_birth: CalendarDate { year: 1990, month: 4, day: 10 },
        is_active: true,
        tb_account_id: linked,
        created_at: t,
        updated_at: t,
    }
}

fn account(id: u128, credits: u128, debits: u128) -> LedgerAccount {
    LedgerAccount { id, user_data_128: USER, ledger: 1, code: 1, credits_posted: credits, debits_posted: debits }
}

fn found(a: LedgerAccount) -> AccountEvent {
    AccountEvent::AccountsFound(Ok(vec![a]))
}

fn reply_err(action: AccountAction) -> AccountError {
    match action {
        AccountAction::Reply { result: Err(e) } => e,
        _ => panic!("expected a failure"),
    }
}

#[test]
fn deposit_moves_money_from_bank_to_user_and_logs_positive_amount() {
    let svc = AccountService::new(config(Some(BANK)));
    let op = AccountOperation::Deposit {
        user_id: USER,
        request: DepositRequest { amount_cents: 2500, description: Some("cena".to_string()) },
    };
    let (p, a) = svc.step(&op, AccountPhase::Start, AccountEvent::Begin);
    assert_eq!(p, AccountPhase::AwaitUser);
    assert!(matches!(a, AccountAction::FindUser { user_id: USER }));
    let (p, a) = svc.step(&op, p, AccountEvent::UserFound(Ok(Some(user(Some(ACCT))))));
    assert_eq!(p, AccountPhase::AwaitTransfer { from: BANK, to: ACCT });
    match a {
        AccountAction::CreateTransfer { transfer } => {
            assert_eq!(transfer.debit_account_id, BANK);
            assert_eq!(transfer.credit_account_id, ACCT);
            assert_eq!(transfer.amount, 2500);
            assert_eq!(transfer.ledger, 1);
            assert_eq!(transfer.code, 1);
        },
        _ => panic!("expected a transfer"),
    }
    let (p, a) = svc.step(&op, p, AccountEvent::TransferCreated(Ok(())));
    match a {
        AccountAction::LogTransaction { user_id, from_account_id, to_account_id, amount_cents, status, description } => {
            assert_eq!(user_id, USER);
            assert_eq!(from_account_id, BANK);
            assert_eq!(to_account_id, ACCT);
            assert_eq!(amount_cents, 2500);
            assert_eq!(status, "completed");
            assert_eq!(description, Some("cena".to_string()));
        },
        _ => panic!("expected a log"),
    }
    let (p, a) = svc.step(&op, p, AccountEvent::TransactionLogged);
    assert_eq!(p, AccountPhase::AwaitBalance { account: ACCT });
    assert!(matches!(a, AccountAction::LookupAccount { account_id: ACCT }));
    let (p, a) = svc.step(&op, p, found(account(ACCT, 10_000, 2_500)));
    assert_eq!(p, AccountPhase::Finished);
    match a {
        AccountAction::Reply { result: Ok(AccountReply::Balance(b)) } => {
            assert_eq!(b.account_id, ACCT);
            assert_eq!(b.balance, 7_500);
            assert_eq!(b.credits_posted, 10_000);
            assert_eq!(b.debits_posted, 2_500);
            assert_eq!(b.ledger, 1);
        },
        _ => panic!("expected a balance"),
    }
}

#[test]
fn deposit_without_bank_account_configured() {
    let svc = AccountService::new(config(None));
    let op = AccountOperation::Deposit { user_id: USER, request: DepositRequest { amount_cents: 1, description: None } };
    let (p, _) = svc.step(&op, AccountPhase::Start, AccountEvent::Begin);
    let (p, a) = svc.step(&op, p, AccountEvent::UserFound(Ok(Some(user(Some(ACCT))))));
    assert_eq!(p, AccountPhase::Finished);
    let e = reply_err(a);
    assert_eq!(e.message(), "BANK_ACCOUNT_UUID no está configurado");
    assert_eq!(deposit_failure(&e).status, 500);
}

#[test]
fn deposit_for_unknown_user_is_not_found() {
    let svc = AccountService::new(config(Some(BANK)));
    let op = AccountOperation::Deposit { user_id: USER, request: DepositRequest { amount_cents: 1, description: None } };
    let (p, _) = svc.step(&op, AccountPhase::Start, AccountEvent::Begin);
    let (p, a) = svc.step(&op, p, AccountEvent::UserFound(Ok(None)));
    assert_eq!(p, AccountPhase::Finished);
    let e = reply_err(a);
    assert_eq!(e.message(), "Usuario no encontrado");
    let f = deposit_failure(&e);
    assert_eq!(f.status, 404);
    assert_eq!(f.error, "Error al realizar depósito");
    assert_eq!(f.details, Some("Usuario no encontrado".to_string()));
}

#[test]
fn user_without_ledger_account() {
    let svc = AccountService::new(config(Some(BANK)));
    let op = AccountOperation::GetAccountBalance { user_id: USER };
    let (p, _) = svc.step(&op, AccountPhase::Start, AccountEvent::Begin);
    let (_, a) = svc.step(&op, p, AccountEvent::UserFound(Ok(Some(user(None)))));
    assert_eq!(reply_err(a).message(), "Usuario no tiene una cuenta de TigerBeetle vinculada");
    let op = AccountOperation::Transfer {
        from_user_id: USER,
        request: TransferRequest { to_account_id: OTHER, amount_cents: 5, description: None },
    };
    let (p, _) = svc.step(&op, AccountPhase::Start, AccountEvent::Begin);
    let (_, a) = svc.step(&op, p, AccountEvent::UserFound(Ok(Some(user(None)))));
    assert_eq!(reply_err(a).message(), "Usuario origen no tiene una cuenta de TigerBeetle vinculada");
}

#[test]
fn database_failure_is_reported_with_its_message() {
    let svc = AccountService::new(config(Some(BANK)));
    let op = AccountOperation::GetUserAccount { user_id: USER };
    let (p, _) = svc.step(&op, AccountPhase::Start, AccountEvent::Begin);
    let (_, a) = svc.step(&op, p, AccountEvent::UserFound(Err("pool timed out".to_string())));
    let e = reply_err(a);
    assert_eq!(e.message(), "pool timed out");
    assert_eq!(get_account_failure(&e).status, 500);
}

#[test]
fn withdraw_with_insufficient_funds_is_refused() {
    let svc = AccountService::new(config(Some(BANK)));
    let op = AccountOperation::Withdraw {
        user_id: USER,
        request: WithdrawRequest { amount_cents: 5_000, description: None },
    };
    let (p, _) = svc.step(&op, AccountPhase::Start, AccountEvent::Begin);
    let (p, a) = svc.step(&op, p, AccountEvent::UserFound(Ok(Some(user(Some(ACCT))))));
    assert_eq!(p, AccountPhase::AwaitSourceBalance { from: ACCT, to: None });
    assert!(matches!(a, AccountAction::LookupAccount { account_id: ACCT }));
    let (p, a) = svc.step(&op, p, found(account(ACCT, 4_999, 0)));
    assert_eq!(p, AccountPhase::Finished);
    let e = reply_err(a);
    assert_eq!(e.message(), "Fondos insuficientes");
    let f = withdraw_failure(&e);
    assert_eq!(f.status, 400);
    assert_eq!(f.error, "Error al realizar retiro");
}

#[test]
fn withdraw_of_exact_balance_pays_the_bank_and_logs_negative_amount() {
    let svc = AccountService::new(config(Some(BANK)));
    let op = AccountOperation::Withdraw {
        user_id: USER,
        request: WithdrawRequest { amount_cents: 5_000, description: None },
    };
    let (p, _) = svc.step(&op, AccountPhase::Start, AccountEvent::Begin);
    let (p, _) = svc.step(&op, p, AccountEvent::UserFound(Ok(Some(user(Some(ACCT))))));
    let (p, a) = svc.step(&op, p, found(account(ACCT, 6_000, 1_000)));
    assert_eq!(p, AccountPhase::AwaitTransfer { from: ACCT, to: BANK });
    match a {
        AccountAction::CreateTransfer { transfer } => {
            assert_eq!(transfer.debit_account_id, ACCT);
            assert_eq!(transfer.credit_account_id, BANK);
            assert_eq!(transfer.amount, 5_000);
        },
        _ => panic!("expected a transfer"),
    }
    let (p, a) = svc.step(&op, p, AccountEvent::TransferCreated(Ok(())));
    assert!(matches!(a, AccountAction::LogTransaction { amount_cents: -5_000, .. }));
    let (p, a) = svc.step(&op, p, AccountEvent::TransactionLogged);
    assert_eq!(p, AccountPhase::AwaitBalance { account: ACCT });
    assert!(matches!(a, AccountAction::LookupAccount { account_id: ACCT }));
}

#[test]
fn withdraw_checks_funds_before_bank_configuration() {
    let svc = AccountService::new(config(None));
    let op = AccountOperation::Withdraw { user_id: USER, request: WithdrawRequest { amount_cents: 10, description: None } };
    let (p, _) = svc.step(&op, AccountPhase::Start, AccountEvent::Begin);
    let (p, _) = svc.step(&op, p, AccountEvent::UserFound(Ok(Some(user(Some(ACCT))))));
    let (_, a) = svc.step(&op, p, found(account(ACCT, 5, 0)));
    assert_eq!(reply_err(a).message(), "Fondos insuficientes");
    let (p, _) = svc.step(&op, AccountPhase::Start, AccountEvent::Begin);
    let (p, _) = svc.step(&op, p, AccountEvent::UserFound(Ok(Some(user(Some(ACCT))))));
    let (_, a) = svc.step(&op, p, found(account(ACCT, 50, 0)));
    assert_eq!(reply_err(a).message(), "BANK_ACCOUNT_UUID no está configurado");
}

#[test]
fn transfer_to_missing_destination() {
    let svc = AccountService::new(config(Some(BANK)));
    let op = AccountOperation::Transfer {
        from_user_id: USER,
        request: TransferRequest { to_account_id: OTHER, amount_cents: 5, description: None },
    };
    let (p, _) = svc.step(&op, AccountPhase::Start, AccountEvent::Begin);
    let (p, a) = svc.step(&op, p, AccountEvent::UserFound(Ok(Some(user(Some(ACCT))))));
    assert!(matches!(a, AccountAction::LookupAccount { account_id: OTHER }));
    let (_, a) = svc.step(&op, p, AccountEvent::AccountsFound(Ok(vec![])));
    let e = reply_err(a);
    assert_eq!(e.message(), "La cuenta de destino no existe");
    assert_eq!(transfer_failure(&e).status, 500);
}

#[test]
fn transfer_to_own_account_is_refused() {
    let svc = AccountService::new(config(Some(BANK)));
    let op = AccountOperation::Transfer {
        from_user_id: USER,
        request: TransferRequest { to_account_id: ACCT, amount_cents: 5, description: None },
    };
    let (p, _) = svc.step(&op, AccountPhase::Start, AccountEvent::Begin);
    let (p, _) = svc.step(&op, p, AccountEvent::UserFound(Ok(Some(user(Some(ACCT))))));
    let (_, a) = svc.step(&op, p, found(account(ACCT, 100, 0)));
    let e = reply_err(a);
    assert_eq!(e.message(), "No se puede transferir a la misma cuenta");
    assert_eq!(transfer_failure(&e).status, 400);
}

#[test]
fn transfer_between_users() {
    let svc = AccountService::new(config(Some(BANK)));
    let op = AccountOperation::Transfer {
        from_user_id: USER,
        request: TransferRequest { to_account_id: OTHER, amount_cents: 300, description: Some("renta".to_string()) },
    };
    let (p, _) = svc.step(&op, AccountPhase::Start, AccountEvent::Begin);
    let (p, _) = svc.step(&op, p, AccountEvent::UserFound(Ok(Some(user(Some(ACCT))))));
    let (p, a) = svc.step(&op, p, found(account(OTHER, 0, 0)));
    assert_eq!(p, AccountPhase::AwaitSourceBalance { from: ACCT, to: Some(OTHER) });
    assert!(matches!(a, AccountAction::LookupAccount { account_id: ACCT }));
    let (p, a) = svc.step(&op, p, found(account(ACCT, 1_000, 0)));
    match a {
        AccountAction::CreateTransfer { transfer } => {
            assert_eq!(transfer.debit_account_id, ACCT);
            assert_eq!(transfer.credit_account_id, OTHER);
            assert_eq!(transfer.amount, 300);
        },
        _ => panic!("expected a transfer"),
    }
    let (p, a) = svc.step(&op, p, AccountEvent::TransferCreated(Err("exceeds_credits".to_string())));
    assert_eq!(p, AccountPhase::Finished);
    let e = reply_err(a);
    assert_eq!(e.message(), "exceeds_credits");
    assert_eq!(transfer_failure(&e).status, 500);
}

#[test]
fn account_balance_and_user_account_answers() {
    let svc = AccountService::new(config(Some(BANK)));
    let op = AccountOperation::GetAccountBalance { user_id: 123456789012 };
    let (p, _) = svc.step(&op, AccountPhase::Start, AccountEvent::Begin);
    let mut u = user(Some(ACCT));
    u.id = 123456789012;
    let (p, _) = svc.step(&op, p, AccountEvent::UserFound(Ok(Some(u))));
    assert_eq!(p, AccountPhase::AwaitAccountBalance { account: ACCT });
    let (_, a) = svc.step(&op, p, found(account(ACCT, 100, 250)));
    match a {
        AccountAction::Reply { result: Ok(AccountReply::AccountBalance(r)) } => {
            assert_eq!(r.account_id, ACCT);
            assert_eq!(r.account_number, "001-56789012");
            assert_eq!(r.current_balance, 0);
            assert_eq!(r.available_balance, 0);
            assert_eq!(r.currency, "USD");
        },
        _ => panic!("expected an account balance"),
    }
    let op = AccountOperation::GetUserAccount { user_id: 7 };
    let (p, _) = svc.step(&op, AccountPhase::Start, AccountEvent::Begin);
    let (p, _) = svc.step(&op, p, AccountEvent::UserFound(Ok(Some(user(Some(ACCT))))));
    let (_, a) = svc.step(&op, p, found(account(ACCT, 900, 100)));
    match a {
        AccountAction::Reply { result: Ok(AccountReply::Account(r)) } => {
            assert_eq!(r.id, ACCT);
            assert_eq!(r.account_number, "001-00000007");
            assert_eq!(r.account_type, "Savings");
            assert_eq!(r.currency, "USD");
            assert_eq!(r.current_balance, 800);
        },
        _ => panic!("expected an account"),
    }
}

#[test]
fn get_balance_of_missing_account() {
    let svc = AccountService::new(config(Some(BANK)));
    let op = AccountOperation::GetBalance { account_id: ACCT };
    let (p, a) = svc.step(&op, AccountPhase::Start, AccountEvent::Begin);
    assert_eq!(p, AccountPhase::AwaitBalance { account: ACCT });
    assert!(matches!(a, AccountAction::LookupAccount { account_id: ACCT }));
    let (_, a) = svc.step(&op, p, AccountEvent::AccountsFound(Ok(vec![])));
    let e = reply_err(a);
    assert!(matches!(e, AccountError::Ledger(LedgerError::NotFound)));
    assert_eq!(e.message(), "Cuenta no encontrada en TigerBeetle");
    assert_eq!(get_balance_failure(&e).status, 500);
    // "no encontrada" is not "no encontrado": a missing ledger account is a server error for a deposit
    assert_eq!(deposit_failure(&e).status, 500);
}

#[test]
fn balance_is_signed_difference_of_totals() {
    let svc = AccountService::new(config(Some(BANK)));
    let op = AccountOperation::GetBalance { account_id: ACCT };
    let (p, _) = svc.step(&op, AccountPhase::Start, AccountEvent::Begin);
    let (_, a) = svc.step(&op, p, found(account(ACCT, 100, 250)));
    match a {
        AccountAction::Reply { result: Ok(AccountReply::Balance(b)) } => assert_eq!(b.balance, -150),
        _ => panic!("expected a balance"),
    }
}

#[test]
fn access_only_to_own_account() {
    assert!(check_account_access(5, 5).is_ok());
    let f = check_account_access(5, 6).err().unwrap();
    assert_eq!(f.status, 403);
    assert_eq!(f.error, "No autorizado para consultar esta cuenta");
    assert_eq!(f.details, None);
}

#[test]
fn invalid_input_answer() {
    let f = invalid_input("amount_cents: too small".to_string());
    assert_eq!(f.status, 400);
    assert_eq!(f.error, "Datos de entrada inválidos");
    assert_eq!(f.details, Some("amount_cents: too small".to_string()));
}

#[test]
fn movement_requests_decide_before_the_service() {
    match deposit_operation(USER, DepositRequest { amount_cents: 5, description: None }) {
        Ok(AccountOperation::Deposit { user_id, request }) => {
            assert_eq!(user_id, USER);
            assert_eq!(request.amount_cents, 5);
        },
        _ => panic!("expected the deposit"),
    }
    let e = withdraw_operation(USER, WithdrawRequest { amount_cents: 0, description: None }).err().unwrap();
    assert_eq!(e.violations.len(), 1);
    assert_eq!(e.violations[0].field, "amount_cents");
    match transfer_operation(USER, TransferRequest { to_account_id: OTHER, amount_cents: 9, description: None }) {
        Ok(AccountOperation::Transfer { from_user_id, request }) => {
            assert_eq!(from_user_id, USER);
            assert_eq!(request.to_account_id, OTHER);
        },
        _ => panic!("expected the transfer"),
    }
}
