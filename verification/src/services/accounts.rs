use vstd::prelude::*;

use crate::clock::{now, Timestamp};
use crate::config::Config;
use crate::ids::new_random_id;
use crate::models::api::account::{
    AccountBalanceResponse, AccountBalanceResponseView, AccountResponse, AccountResponseView, BalanceResponse,
    DepositRequest, TransferRequest, WithdrawRequest,
};
use crate::models::database::User;
use crate::repositories::UserRepository;
use crate::services::tigerbeetle_service::{
    account_from_lookup_spec, account_number_text, available_balance, LedgerAccount, LedgerError,
    LedgerErrorView, LedgerTransfer, TigerBeetleService, BANK_CODE, BANK_LEDGER,
};
use crate::services::transactions::TransactionService;

verus! {

/// An operation on a user's money, carried out step by step: each step
/// takes what the last request to the database or the ledger answered and
/// says what to ask next, or what to answer.
pub enum AccountOperation {
    /// The balance of a ledger account.
    GetBalance { account_id: u128 },
    /// The user's account with its balances.
    GetAccountBalance { user_id: u128 },
    /// A deposit from the bank's account into the user's.
    Deposit { user_id: u128, request: DepositRequest },
    /// A withdrawal from the user's account into the bank's.
    Withdraw { user_id: u128, request: WithdrawRequest },
    /// A transfer from the user's account to another.
    Transfer { from_user_id: u128, request: TransferRequest },
    /// The user's account.
    GetUserAccount { user_id: u128 },
}

/// Where an operation stands.
#[derive(PartialEq, Eq, Structural, Clone, Copy, Debug)]
pub enum AccountPhase {
    Start,
    /// The user record was asked for.
    AwaitUser,
    /// The destination account of a transfer was looked up.
    AwaitDestination { from: u128 },
    /// The paying account was looked up, for its balance; `to` is the
    /// destination of a transfer (a withdrawal pays the bank).
    AwaitSourceBalance { from: u128, to: Option<u128> },
    /// The ledger transfer was sent.
    AwaitTransfer { from: u128, to: u128 },
    /// The history entry was sent.
    AwaitLog { from: u128, to: u128 },
    /// The account whose balance is answered was looked up.
    AwaitBalance { account: u128 },
    /// The user's account was looked up.
    AwaitAccountBalance { account: u128 },
    /// The answer was given.
    Finished,
}

/// What the database or the ledger answered.
pub enum AccountEvent {
    /// The operation begins.
    Begin,
    /// The user record (or the database error's message).
    UserFound(Result<Option<User>, String>),
    /// The ledger's answer to a lookup of one account (or the client error's
    /// message).
    AccountsFound(Result<Vec<LedgerAccount>, String>),
    /// The ledger's answer to a transfer.
    TransferCreated(Result<(), String>),
    /// The history entry was handled (its outcome does not matter).
    TransactionLogged,
}

/// Why an operation failed.
pub enum AccountError {
    /// The database failed, with this message.
    Database(String),
    /// The ledger failed or has no such account.
    Ledger(LedgerError),
    UserNotFound,
    /// The user has no ledger account.
    UserNotLinked,
    /// The paying user of a transfer has no ledger account.
    SourceUserNotLinked,
    DestinationMissing,
    SameAccount,
    InsufficientFunds,
    BankNotConfigured,
}

/// A failure as plain values.
pub enum AccountErrorView {
    Database(Seq<char>),
    Ledger(LedgerErrorView),
    UserNotFound,
    UserNotLinked,
    SourceUserNotLinked,
    DestinationMissing,
    SameAccount,
    InsufficientFunds,
    BankNotConfigured,
}

impl View for AccountError {
    type V = AccountErrorView;

    open spec fn view(&self) -> AccountErrorView {
        match self {
            AccountError::Database(m) => AccountErrorView::Database(m@),
            AccountError::Ledger(e) => AccountErrorView::Ledger(e@),
            AccountError::UserNotFound => AccountErrorView::UserNotFound,
            AccountError::UserNotLinked => AccountErrorView::UserNotLinked,
            AccountError::SourceUserNotLinked => AccountErrorView::SourceUserNotLinked,
            AccountError::DestinationMissing => AccountErrorView::DestinationMissing,
            AccountError::SameAccount => AccountErrorView::SameAccount,
            AccountError::InsufficientFunds => AccountErrorView::InsufficientFunds,
            AccountError::BankNotConfigured => AccountErrorView::BankNotConfigured,
        }
    }
}

/// The message of each failure.
pub open spec fn account_error_text(e: AccountErrorView) -> Seq<char> {
    match e {
        AccountErrorView::Database(m) => m,
        AccountErrorView::Ledger(LedgerErrorView::NotFound) => "Cuenta no encontrada en TigerBeetle"@,
        AccountErrorView::Ledger(LedgerErrorView::Client(m)) => m,
        AccountErrorView::UserNotFound => "Usuario no encontrado"@,
        AccountErrorView::UserNotLinked => "Usuario no tiene una cuenta de TigerBeetle vinculada"@,
        AccountErrorView::SourceUserNotLinked => "Usuario origen no tiene una cuenta de TigerBeetle vinculada"@,
        AccountErrorView::DestinationMissing => "La cuenta de destino no existe"@,
        AccountErrorView::SameAccount => "No se puede transferir a la misma cuenta"@,
        AccountErrorView::InsufficientFunds => "Fondos insuficientes"@,
        AccountErrorView::BankNotConfigured => "BANK_ACCOUNT_UUID no está configurado"@,
    }
}

impl AccountError {
    /// The message of the failure.
    pub fn message(&self) -> (res: String)
        ensures
            res@ == account_error_text(self@),
    {
        match self {
            AccountError::Database(m) => m.clone(),
            AccountError::Ledger(e) => e.message(),
            AccountError::UserNotFound => "Usuario no encontrado".to_string(),
            AccountError::UserNotLinked => "Usuario no tiene una cuenta de TigerBeetle vinculada".to_string(),
            AccountError::SourceUserNotLinked => "Usuario origen no tiene una cuenta de TigerBeetle vinculada".to_string(),
            AccountError::DestinationMissing => "La cuenta de destino no existe".to_string(),
            AccountError::SameAccount => "No se puede transferir a la misma cuenta".to_string(),
            AccountError::InsufficientFunds => "Fondos insuficientes".to_string(),
            AccountError::BankNotConfigured => "BANK_ACCOUNT_UUID no está configurado".to_string(),
        }
    }
}

/// The answer of an operation.
pub enum AccountReply {
    Balance(BalanceResponse),
    AccountBalance(AccountBalanceResponse),
    Account(AccountResponse),
}

pub enum AccountReplyView {
    Balance(BalanceResponse),
    AccountBalance(AccountBalanceResponseView),
    Account(AccountResponseView),
}

impl View for AccountReply {
    type V = AccountReplyView;

    open spec fn view(&self) -> AccountReplyView {
        match self {
            AccountReply::Balance(b) => AccountReplyView::Balance(*b),
            AccountReply::AccountBalance(b) => AccountReplyView::AccountBalance(b@),
            AccountReply::Account(a) => AccountReplyView::Account(a@),
        }
    }
}

/// What to do next.
pub enum AccountAction {
    /// Read the user record.
    FindUser { user_id: u128 },
    /// Look one account up in the ledger.
    LookupAccount { account_id: u128 },
    /// Post a transfer in the ledger.
    CreateTransfer { transfer: LedgerTransfer },
    /// Record the movement in the history (`TransactionService::log_transaction`).
    LogTransaction {
        user_id: u128,
        from_account_id: u128,
        to_account_id: u128,
        amount_cents: i64,
        status: String,
        description: Option<String>,
    },
    /// Answer.
    Reply { result: Result<AccountReply, AccountError> },
}

pub enum AccountActionView {
    FindUser { user_id: u128 },
    LookupAccount { account_id: u128 },
    CreateTransfer { transfer: LedgerTransfer },
    LogTransaction {
        user_id: u128,
        from_account_id: u128,
        to_account_id: u128,
        amount_cents: i64,
        status: Seq<char>,
        description: Option<Seq<char>>,
    },
    Reply { result: Result<AccountReplyView, AccountErrorView> },
}

/// An optional text as plain values.
pub open spec fn opt_text(o: Option<String>) -> Option<Seq<char>> {
    match o {
        Some(s) => Some(s@),
        None => None,
    }
}

impl View for AccountAction {
    type V = AccountActionView;

    open spec fn view(&self) -> AccountActionView {
        match self {
            AccountAction::FindUser { user_id } => AccountActionView::FindUser { user_id: *user_id },
            AccountAction::LookupAccount { account_id } => AccountActionView::LookupAccount {
                account_id: *account_id,
            },
            AccountAction::CreateTransfer { transfer } => AccountActionView::CreateTransfer { transfer: *transfer },
            AccountAction::LogTransaction {
                user_id,
                from_account_id,
                to_account_id,
                amount_cents,
                status,
                description,
            } => AccountActionView::LogTransaction {
                user_id: *user_id,
                from_account_id: *from_account_id,
                to_account_id: *to_account_id,
                amount_cents: *amount_cents,
                status: status@,
                description: opt_text(*description),
            },
            AccountAction::Reply { result } => AccountActionView::Reply {
                result: match result {
                    Ok(r) => Ok(r@),
                    Err(e) => Err(e@),
                },
            },
        }
    }
}

/// The user the operation is for (the id for `GetBalance`, which has none).
pub open spec fn op_user(op: AccountOperation) -> u128 {
    match op {
        AccountOperation::GetBalance { account_id } => account_id,
        AccountOperation::GetAccountBalance { user_id } => user_id,
        AccountOperation::Deposit { user_id, .. } => user_id,
        AccountOperation::Withdraw { user_id, .. } => user_id,
        AccountOperation::Transfer { from_user_id, .. } => from_user_id,
        AccountOperation::GetUserAccount { user_id } => user_id,
    }
}

/// The amount of a movement of money (0 for the other operations).
pub open spec fn op_amount(op: AccountOperation) -> i64 {
    match op {
        AccountOperation::Deposit { request, .. } => request.amount_cents,
        AccountOperation::Withdraw { request, .. } => request.amount_cents,
        AccountOperation::Transfer { request, .. } => request.amount_cents,
        _ => 0,
    }
}

/// The description of a movement of money.
pub open spec fn op_description(op: AccountOperation) -> Option<String> {
    match op {
        AccountOperation::Deposit { request, .. } => request.description,
        AccountOperation::Withdraw { request, .. } => request.description,
        AccountOperation::Transfer { request, .. } => request.description,
        _ => None,
    }
}

/// Whether the operation moves money.
pub open spec fn is_movement(op: AccountOperation) -> bool {
    op is Deposit || op is Withdraw || op is Transfer
}

/// The amount written to the history for a movement: positive for the
/// user's deposit, negative for money leaving the user's account.
pub open spec fn logged_amount(op: AccountOperation) -> int {
    if op is Deposit {
        op_amount(op) as int
    } else {
        -op_amount(op)
    }
}

/// The balance, credits and debits answered for an account: each
/// ledger total cut to 64 signed bits, the balance their difference.
pub open spec fn balance_response_of(account_id: u128, a: LedgerAccount) -> BalanceResponse {
    BalanceResponse {
        account_id,
        balance: ((a.credits_posted as i64) - (a.debits_posted as i64)) as i64,
        ledger: a.ledger,
        credits_posted: a.credits_posted as i64,
        debits_posted: a.debits_posted as i64,
    }
}

/// The difference of the 64-bit cuts of the totals fits in 64 bits.
pub open spec fn balance_computable(found: Result<Vec<LedgerAccount>, String>) -> bool {
    match found {
        Ok(v) => v@.len() > 0 ==> {
            let a = v@[0];
            i64::MIN <= (a.credits_posted as i64) - (a.debits_posted as i64) <= i64::MAX
        },
        Err(_) => true,
    }
}

/// The events each phase waits for. Stepping a finished operation, or a
/// movement whose amount cannot be negated for the history, is not
/// possible.
pub open spec fn expects(op: AccountOperation, phase: AccountPhase, event: AccountEvent) -> bool {
    match phase {
        AccountPhase::Start => event is Begin,
        AccountPhase::AwaitUser => event is UserFound && !(op is GetBalance),
        AccountPhase::AwaitDestination { .. } => event is AccountsFound && op is Transfer,
        AccountPhase::AwaitSourceBalance { to, .. } => event is AccountsFound && (op is Withdraw || (
        op is Transfer && to is Some)),
        AccountPhase::AwaitTransfer { .. } => event is TransferCreated && is_movement(op) && op_amount(op)
            > i64::MIN,
        AccountPhase::AwaitLog { .. } => event is TransactionLogged && is_movement(op),
        AccountPhase::AwaitBalance { .. } => event matches AccountEvent::AccountsFound(r) && (op is GetBalance
            || is_movement(op)) && balance_computable(r),
        AccountPhase::AwaitAccountBalance { .. } => event is AccountsFound && (op is GetAccountBalance
            || op is GetUserAccount),
        AccountPhase::Finished => false,
    }
}

/// Answer with a failure.
pub open spec fn fail(e: AccountErrorView) -> (AccountPhase, AccountActionView) {
    (AccountPhase::Finished, AccountActionView::Reply { result: Err(e) })
}

/// The transfer of the operation's amount, under the id `fresh`.
pub open spec fn transfer_spec(fresh: u128, from: u128, to: u128, amount: i64) -> LedgerTransfer {
    LedgerTransfer {
        id: fresh,
        debit_account_id: from,
        credit_account_id: to,
        ledger: BANK_LEDGER,
        code: BANK_CODE,
        amount: amount as u64 as u128,
    }
}

/// The step after the user's ledger account `acct` is known.
pub open spec fn after_user(bank: Option<u128>, op: AccountOperation, acct: u128, fresh: u128) -> (AccountPhase, AccountActionView) {
    match op {
        AccountOperation::Deposit { request, .. } => match bank {
            None => fail(AccountErrorView::BankNotConfigured),
            Some(b) => (
                AccountPhase::AwaitTransfer { from: b, to: acct },
                AccountActionView::CreateTransfer { transfer: transfer_spec(fresh, b, acct, request.amount_cents) },
            ),
        },
        AccountOperation::Withdraw { .. } => (
            AccountPhase::AwaitSourceBalance { from: acct, to: None },
            AccountActionView::LookupAccount { account_id: acct },
        ),
        AccountOperation::Transfer { request, .. } => (
            AccountPhase::AwaitDestination { from: acct },
            AccountActionView::LookupAccount { account_id: request.to_account_id },
        ),
        _ => (
            AccountPhase::AwaitAccountBalance { account: acct },
            AccountActionView::LookupAccount { account_id: acct },
        ),
    }
}

/// The answer about the user's account once its ledger account is known.
pub open spec fn account_answer(op: AccountOperation, account: u128, a: LedgerAccount, clock: Timestamp) -> AccountReplyView {
    let balance = available_balance(a);
    match op {
        AccountOperation::GetAccountBalance { user_id } => AccountReplyView::AccountBalance(
            AccountBalanceResponseView {
                account_id: account,
                account_number: account_number_text(user_id),
                current_balance: balance as i64,
                available_balance: balance as i64,
                currency: "USD"@,
                last_updated: clock,
            },
        ),
        _ => AccountReplyView::Account(
            AccountResponseView {
                id: account,
                account_number: account_number_text(op_user(op)),
                account_type: "Savings"@,
                currency: "USD"@,
                current_balance: balance as i64,
            },
        ),
    }
}

/// One step of an operation: from the phase and what was answered, the next
/// phase and what to do. `bank` is the bank's ledger account (if
/// configured), `fresh` the id a new transfer is posted under and `clock`
/// the time an account answer is stamped with.
pub open spec fn account_step(
    bank: Option<u128>,
    op: AccountOperation,
    phase: AccountPhase,
    event: AccountEvent,
    fresh: u128,
    clock: Timestamp,
) -> (AccountPhase, AccountActionView) {
    match (phase, event) {
        (AccountPhase::Start, _) => match op {
            AccountOperation::GetBalance { account_id } => (
                AccountPhase::AwaitBalance { account: account_id },
                AccountActionView::LookupAccount { account_id },
            ),
            _ => (AccountPhase::AwaitUser, AccountActionView::FindUser { user_id: op_user(op) }),
        },
        (AccountPhase::AwaitUser, AccountEvent::UserFound(found)) => match found {
            Err(m) => fail(AccountErrorView::Database(m@)),
            Ok(None) => fail(AccountErrorView::UserNotFound),
            Ok(Some(user)) => match user.tb_account_id {
                None => fail(
                    if op is Transfer {
                        AccountErrorView::SourceUserNotLinked
                    } else {
                        AccountErrorView::UserNotLinked
                    },
                ),
                Some(acct) => after_user(bank, op, acct, fresh),
            },
        },
        (AccountPhase::AwaitDestination { from }, AccountEvent::AccountsFound(found)) => {
            let to = match op {
                AccountOperation::Transfer { request, .. } => request.to_account_id,
                _ => 0,
            };
            if account_from_lookup_spec(found) is Err {
                fail(AccountErrorView::DestinationMissing)
            } else if from == to {
                fail(AccountErrorView::SameAccount)
            } else {
                (
                    AccountPhase::AwaitSourceBalance { from, to: Some(to) },
                    AccountActionView::LookupAccount { account_id: from },
                )
            }
        },
        (AccountPhase::AwaitSourceBalance { from, to }, AccountEvent::AccountsFound(found)) => match account_from_lookup_spec(
            found,
        ) {
            Err(e) => fail(AccountErrorView::Ledger(e@)),
            Ok(a) => if available_balance(a) < op_amount(op) as u64 {
                fail(AccountErrorView::InsufficientFunds)
            } else {
                match to {
                    Some(t) => (
                        AccountPhase::AwaitTransfer { from, to: t },
                        AccountActionView::CreateTransfer { transfer: transfer_spec(fresh, from, t, op_amount(op)) },
                    ),
                    None => match bank {
                        None => fail(AccountErrorView::BankNotConfigured),
                        Some(b) => (
                            AccountPhase::AwaitTransfer { from, to: b },
                            AccountActionView::CreateTransfer {
                                transfer: transfer_spec(fresh, from, b, op_amount(op)),
                            },
                        ),
                    },
                }
            },
        },
        (AccountPhase::AwaitTransfer { from, to }, AccountEvent::TransferCreated(done)) => match done {
            Err(m) => fail(AccountErrorView::Ledger(LedgerErrorView::Client(m@))),
            Ok(_) => (
                AccountPhase::AwaitLog { from, to },
                AccountActionView::LogTransaction {
                    user_id: op_user(op),
                    from_account_id: from,
                    to_account_id: to,
                    amount_cents: logged_amount(op) as i64,
                    status: "completed"@,
                    description: opt_text(op_description(op)),
                },
            ),
        },
        (AccountPhase::AwaitLog { from, to }, AccountEvent::TransactionLogged) => {
            let account = if op is Deposit {
                to
            } else {
                from
            };
            (AccountPhase::AwaitBalance { account }, AccountActionView::LookupAccount { account_id: account })
        },
        (AccountPhase::AwaitBalance { account }, AccountEvent::AccountsFound(found)) => match account_from_lookup_spec(
            found,
        ) {
            Err(e) => fail(AccountErrorView::Ledger(e@)),
            Ok(a) => (
                AccountPhase::Finished,
                AccountActionView::Reply { result: Ok(AccountReplyView::Balance(balance_response_of(account, a))) },
            ),
        },
        (AccountPhase::AwaitAccountBalance { account }, AccountEvent::AccountsFound(found)) => match account_from_lookup_spec(
            found,
        ) {
            Err(e) => fail(AccountErrorView::Ledger(e@)),
            Ok(a) => (
                AccountPhase::Finished,
                AccountActionView::Reply { result: Ok(account_answer(op, account, a, clock)) },
            ),
        },
        _ => (AccountPhase::Finished, AccountActionView::FindUser { user_id: 0 }),
    }
}

/// What holds of every phase an operation reaches: a transfer's phases keep
/// its destination and a source that differs from it; a deposit pays from
/// the bank's account; a withdrawal pays into it.
pub open spec fn account_invariant(bank: Option<u128>, op: AccountOperation, phase: AccountPhase) -> bool {
    match op {
        AccountOperation::Transfer { request, .. } => match phase {
            AccountPhase::AwaitSourceBalance { from, to } => to == Some(request.to_account_id) && from
                != request.to_account_id,
            AccountPhase::AwaitTransfer { from, to } => to == request.to_account_id && from != to,
            AccountPhase::AwaitLog { from, to } => to == request.to_account_id && from != to,
            _ => true,
        },
        AccountOperation::Deposit { .. } => match phase {
            AccountPhase::AwaitTransfer { from, .. } => bank == Some(from),
            AccountPhase::AwaitLog { from, .. } => bank == Some(from),
            _ => true,
        },
        AccountOperation::Withdraw { .. } => match phase {
            AccountPhase::AwaitSourceBalance { to, .. } => to is None,
            AccountPhase::AwaitTransfer { to, .. } => bank == Some(to),
            AccountPhase::AwaitLog { to, .. } => bank == Some(to),
            _ => true,
        },
        _ => true,
    }
}

/// Every operation starts in a phase that keeps the invariant, and each
/// step keeps it.
pub proof fn law_account_invariant_kept(
    bank: Option<u128>,
    op: AccountOperation,
    phase: AccountPhase,
    event: AccountEvent,
    fresh: u128,
    clock: Timestamp,
)
    requires
        account_invariant(bank, op, phase),
        expects(op, phase, event),
    ensures
        account_invariant(bank, op, AccountPhase::Start),
        account_invariant(bank, op, account_step(bank, op, phase, event, fresh, clock).0),
{
}

/// The money of a transfer goes to the account the user named, never back
/// to the paying account; a deposit is paid by the bank's account and a
/// withdrawal is paid to it.
pub proof fn law_transfer_parties(
    bank: Option<u128>,
    op: AccountOperation,
    phase: AccountPhase,
    event: AccountEvent,
    fresh: u128,
    clock: Timestamp,
)
    requires
        account_invariant(bank, op, phase),
        expects(op, phase, event),
    ensures
        account_step(bank, op, phase, event, fresh, clock).1 matches AccountActionView::CreateTransfer { transfer } ==> {
            &&& is_movement(op)
            &&& (op matches AccountOperation::Transfer { request, .. } ==> transfer.credit_account_id
                == request.to_account_id && transfer.debit_account_id != transfer.credit_account_id)
            &&& (op is Deposit ==> bank == Some(transfer.debit_account_id))
            &&& (op is Withdraw ==> bank == Some(transfer.credit_account_id))
            &&& transfer.amount == op_amount(op) as u64 as u128
        },
{
}

/// A withdrawal or a transfer posts no more than the balance that the
/// lookup of the paying account showed, and is paid from that account.
pub proof fn law_withdrawal_within_balance(
    bank: Option<u128>,
    op: AccountOperation,
    from: u128,
    to: Option<u128>,
    found: Result<Vec<LedgerAccount>, String>,
    fresh: u128,
    clock: Timestamp,
)
    requires
        op is Withdraw || op is Transfer,
    ensures
        account_step(bank, op, AccountPhase::AwaitSourceBalance { from, to }, AccountEvent::AccountsFound(found), fresh, clock).1 matches AccountActionView::CreateTransfer { transfer } ==> {
            &&& account_from_lookup_spec(found) is Ok
            &&& transfer.amount <= available_balance(account_from_lookup_spec(found)->Ok_0)
            &&& transfer.debit_account_id == from
        },
{
}

/// A movement is written to the history only after the ledger took its
/// transfer, between the same accounts, with the amount counted positive for
/// a deposit and negative for money leaving the user's account.
pub proof fn law_history_follows_transfer(
    bank: Option<u128>,
    op: AccountOperation,
    phase: AccountPhase,
    event: AccountEvent,
    fresh: u128,
    clock: Timestamp,
)
    requires
        expects(op, phase, event),
    ensures
        account_step(bank, op, phase, event, fresh, clock).1 matches AccountActionView::LogTransaction {
            from_account_id,
            to_account_id,
            amount_cents,
            ..
        } ==> {
            &&& phase == (AccountPhase::AwaitTransfer { from: from_account_id, to: to_account_id })
            &&& event matches AccountEvent::TransferCreated(done) && done is Ok
            &&& amount_cents == logged_amount(op)
        },
{
}

/// An operation ends with its answer: every answer, success or failure,
/// finishes the operation, and a finished operation takes no more steps.
pub proof fn law_answer_is_final(
    bank: Option<u128>,
    op: AccountOperation,
    phase: AccountPhase,
    event: AccountEvent,
    fresh: u128,
    clock: Timestamp,
)
    requires
        expects(op, phase, event),
    ensures
        account_step(bank, op, phase, event, fresh, clock).1 is Reply ==> account_step(bank, op, phase, event, fresh, clock).0 == AccountPhase::Finished,
        account_step(bank, op, phase, event, fresh, clock).0 == AccountPhase::Finished ==> account_step(bank, op, phase, event, fresh, clock).1 is Reply,
        forall|e: AccountEvent| !expects(op, AccountPhase::Finished, e),
{
}

/// The balance answered after a movement of money is that of the user's own
/// account: once the ledger took the posted transfer and the history entry
/// is written, the account looked up (and then answered) is the one that
/// paid (the transfer's debit account) for a withdrawal or a transfer, and
/// the one that received (its credit account) for a deposit. For a transfer
/// that is never the account the money went to.
pub proof fn law_movement_answers_the_users_balance(
    bank: Option<u128>,
    op: AccountOperation,
    phase: AccountPhase,
    event: AccountEvent,
    fresh: u128,
    clock: Timestamp,
    fresh2: u128,
    clock2: Timestamp,
    fresh3: u128,
    clock3: Timestamp,
)
    requires
        account_invariant(bank, op, phase),
        expects(op, phase, event),
        account_step(bank, op, phase, event, fresh, clock).1 is CreateTransfer,
    ensures
        ({
            let posted = account_step(bank, op, phase, event, fresh, clock);
            let taken = account_step(bank, op, posted.0, AccountEvent::TransferCreated(Ok(())), fresh2, clock2);
            let logged = account_step(bank, op, taken.0, AccountEvent::TransactionLogged, fresh3, clock3);
            posted.1 matches AccountActionView::CreateTransfer { transfer } && (logged.1
                matches AccountActionView::LookupAccount { account_id } && {
                &&& logged.0 == (AccountPhase::AwaitBalance { account: account_id })
                &&& op is Deposit ==> account_id == transfer.credit_account_id
                &&& !(op is Deposit) ==> account_id == transfer.debit_account_id
                &&& (op matches AccountOperation::Transfer { request, .. } ==> account_id != request.to_account_id)
            })
        }),
{
}

/// The id of the transfer an action posts (0 for other actions).
pub open spec fn transfer_id_of(action: AccountAction) -> u128 {
    match action {
        AccountAction::CreateTransfer { transfer } => transfer.id,
        _ => 0,
    }
}

/// The time an account answer is stamped with (the epoch for other actions).
pub open spec fn clock_of(action: AccountAction) -> Timestamp {
    match action {
        AccountAction::Reply { result: Ok(AccountReply::AccountBalance(r)) } => r.last_updated,
        _ => Timestamp { secs: 0, nanos: 0 },
    }
}

/// The account operations of the bank: balances, deposits, withdrawals and
/// transfers.
pub struct AccountService {
    pub tigerbeetle_service: TigerBeetleService,
    pub user_repository: UserRepository,
    pub config: Config,
    pub transaction_service: TransactionService,
}

impl AccountService {
    pub fn new(config: Config) -> (res: AccountService)
        ensures
            res.config == config,
    {
        AccountService {
            tigerbeetle_service: TigerBeetleService::new(),
            user_repository: UserRepository::new(),
            config,
            transaction_service: TransactionService::new(),
        }
    }

    /// The bank's ledger account, from the settings.
    pub fn get_bank_account_id(&self) -> (res: Result<u128, AccountError>)
        ensures
            match self.config.bank_account_uuid {
                Some(b) => res matches Ok(r) && r == b,
                None => res matches Err(e) && e@ == AccountErrorView::BankNotConfigured,
            },
    {
        match self.config.bank_account_uuid {
            Some(b) => Ok(b),
            None => Err(AccountError::BankNotConfigured),
        }
    }

    fn failure(e: AccountError) -> (res: (AccountPhase, AccountAction))
        ensures
            res.0 == AccountPhase::Finished,
            res.1@ == (AccountActionView::Reply { result: Err(e@) }),
    {
        (AccountPhase::Finished, AccountAction::Reply { result: Err(e) })
    }

    fn new_transfer(&self, from: u128, to: u128, amount: i64) -> (res: LedgerTransfer)
        ensures
            res == transfer_spec(res.id, from, to, amount),
    {
        self.tigerbeetle_service.transfer_record(new_random_id(), from, to, amount as u64)
    }

    fn describe(d: &Option<String>) -> (res: Option<String>)
        ensures
            opt_text(res) == opt_text(*d),
    {
        match d {
            Some(s) => Some(s.clone()),
            None => None,
        }
    }

    /// One step of an account operation (see `account_step`).
    pub fn step(&self, op: &AccountOperation, phase: AccountPhase, event: AccountEvent) -> (res: (
        AccountPhase,
        AccountAction,
    ))
        requires
            expects(*op, phase, event),
        ensures
            (res.0, res.1@) == account_step(
                self.config.bank_account_uuid,
                *op,
                phase,
                event,
                transfer_id_of(res.1),
                clock_of(res.1),
            ),
    {
        match phase {
            AccountPhase::Start => match op {
                AccountOperation::GetBalance { account_id } => (
                    AccountPhase::AwaitBalance { account: *account_id },
                    AccountAction::LookupAccount { account_id: *account_id },
                ),
                AccountOperation::GetAccountBalance { user_id } => (
                    AccountPhase::AwaitUser,
                    AccountAction::FindUser { user_id: *user_id },
                ),
                AccountOperation::Deposit { user_id, .. } => (
                    AccountPhase::AwaitUser,
                    AccountAction::FindUser { user_id: *user_id },
                ),
                AccountOperation::Withdraw { user_id, .. } => (
                    AccountPhase::AwaitUser,
                    AccountAction::FindUser { user_id: *user_id },
                ),
                AccountOperation::Transfer { from_user_id, .. } => (
                    AccountPhase::AwaitUser,
                    AccountAction::FindUser { user_id: *from_user_id },
                ),
                AccountOperation::GetUserAccount { user_id } => (
                    AccountPhase::AwaitUser,
                    AccountAction::FindUser { user_id: *user_id },
                ),
            },
            AccountPhase::AwaitUser => {
                let found = match event {
                    AccountEvent::UserFound(found) => found,
                    _ => vstd::pervasive::unreached(),
                };
                match found {
                    Err(m) => Self::failure(AccountError::Database(m)),
                    Ok(None) => Self::failure(AccountError::UserNotFound),
                    Ok(Some(user)) => match user.tb_account_id {
                        None => match op {
                            AccountOperation::Transfer { .. } => Self::failure(AccountError::SourceUserNotLinked),
                            _ => Self::failure(AccountError::UserNotLinked),
                        },
                        Some(acct) => match op {
                            AccountOperation::Deposit { request, .. } => match self.get_bank_account_id() {
                                Err(e) => Self::failure(e),
                                Ok(b) => (
                                    AccountPhase::AwaitTransfer { from: b, to: acct },
                                    AccountAction::CreateTransfer {
                                        transfer: self.new_transfer(b, acct, request.amount_cents),
                                    },
                                ),
                            },
                            AccountOperation::Withdraw { .. } => (
                                AccountPhase::AwaitSourceBalance { from: acct, to: None },
                                AccountAction::LookupAccount { account_id: acct },
                            ),
                            AccountOperation::Transfer { request, .. } => (
                                AccountPhase::AwaitDestination { from: acct },
                                AccountAction::LookupAccount { account_id: request.to_account_id },
                            ),
                            _ => (
                                AccountPhase::AwaitAccountBalance { account: acct },
                                AccountAction::LookupAccount { account_id: acct },
                            ),
                        },
                    },
                }
            },
            AccountPhase::AwaitDestination { from } => {
                let found = match event {
                    AccountEvent::AccountsFound(found) => found,
                    _ => vstd::pervasive::unreached(),
                };
                let to = match op {
                    AccountOperation::Transfer { request, .. } => request.to_account_id,
                    _ => vstd::pervasive::unreached(),
                };
                match self.tigerbeetle_service.account_from_lookup(found) {
                    Err(_) => Self::failure(AccountError::DestinationMissing),
                    Ok(_) => {
                        if from == to {
                            Self::failure(AccountError::SameAccount)
                        } else {
                            (
                                AccountPhase::AwaitSourceBalance { from, to: Some(to) },
                                AccountAction::LookupAccount { account_id: from },
                            )
                        }
                    },
                }
            },
            AccountPhase::AwaitSourceBalance { from, to } => {
                let found = match event {
                    AccountEvent::AccountsFound(found) => found,
                    _ => vstd::pervasive::unreached(),
                };
                let amount = match op {
                    AccountOperation::Withdraw { request, .. } => request.amount_cents,
                    AccountOperation::Transfer { request, .. } => request.amount_cents,
                    _ => vstd::pervasive::unreached(),
                };
                match self.tigerbeetle_service.account_from_lookup(found) {
                    Err(e) => Self::failure(AccountError::Ledger(e)),
                    Ok(a) => {
                        let balance = self.tigerbeetle_service.balance_of(&a);
                        if balance < amount as u64 {
                            Self::failure(AccountError::InsufficientFunds)
                        } else {
                            match to {
                                Some(t) => (
                                    AccountPhase::AwaitTransfer { from, to: t },
                                    AccountAction::CreateTransfer { transfer: self.new_transfer(from, t, amount) },
                                ),
                                None => match self.get_bank_account_id() {
                                    Err(e) => Self::failure(e),
                                    Ok(b) => (
                                        AccountPhase::AwaitTransfer { from, to: b },
                                        AccountAction::CreateTransfer { transfer: self.new_transfer(from, b, amount) },
                                    ),
                                },
                            }
                        }
                    },
                }
            },
            AccountPhase::AwaitTransfer { from, to } => {
                let done = match event {
                    AccountEvent::TransferCreated(done) => done,
                    _ => vstd::pervasive::unreached(),
                };
                match done {
                    Err(m) => Self::failure(AccountError::Ledger(LedgerError::Client(m))),
                    Ok(_) => {
                        let (user_id, amount, description) = match op {
                            AccountOperation::Deposit { user_id, request } => (
                                *user_id,
                                request.amount_cents,
                                Self::describe(&request.description),
                            ),
                            AccountOperation::Withdraw { user_id, request } => (
                                *user_id,
                                -request.amount_cents,
                                Self::describe(&request.description),
                            ),
                            AccountOperation::Transfer { from_user_id, request } => (
                                *from_user_id,
                                -request.amount_cents,
                                Self::describe(&request.description),
                            ),
                            _ => vstd::pervasive::unreached(),
                        };
                        proof {
                            reveal_strlit("completed");
                        }
                        (
                            AccountPhase::AwaitLog { from, to },
                            AccountAction::LogTransaction {
                                user_id,
                                from_account_id: from,
                                to_account_id: to,
                                amount_cents: amount,
                                status: "completed".to_string(),
                                description,
                            },
                        )
                    },
                }
            },
            AccountPhase::AwaitLog { from, to } => {
                let account = match op {
                    AccountOperation::Deposit { .. } => to,
                    _ => from,
                };
                (AccountPhase::AwaitBalance { account }, AccountAction::LookupAccount { account_id: account })
            },
            AccountPhase::AwaitBalance { account } => {
                let found = match event {
                    AccountEvent::AccountsFound(found) => found,
                    _ => vstd::pervasive::unreached(),
                };
                match self.tigerbeetle_service.account_from_lookup(found) {
                    Err(e) => Self::failure(AccountError::Ledger(e)),
                    Ok(a) => {
                        let credits = a.credits_posted as i64;
                        let debits = a.debits_posted as i64;
                        let r = BalanceResponse {
                            account_id: account,
                            balance: credits - debits,
                            ledger: a.ledger,
                            credits_posted: credits,
                            debits_posted: debits,
                        };
                        (AccountPhase::Finished, AccountAction::Reply { result: Ok(AccountReply::Balance(r)) })
                    },
                }
            },
            AccountPhase::AwaitAccountBalance { account } => {
                let found = match event {
                    AccountEvent::AccountsFound(found) => found,
                    _ => vstd::pervasive::unreached(),
                };
                match self.tigerbeetle_service.account_from_lookup(found) {
                    Err(e) => Self::failure(AccountError::Ledger(e)),
                    Ok(a) => {
                        let balance = self.tigerbeetle_service.balance_of(&a);
                        proof {
                            reveal_strlit("USD");
                            reveal_strlit("Savings");
                        }
                        match op {
                            AccountOperation::GetAccountBalance { user_id } => {
                                let r = AccountBalanceResponse {
                                    account_id: account,
                                    account_number: self.tigerbeetle_service.generate_account_number(*user_id),
                                    current_balance: balance as i64,
                                    available_balance: balance as i64,
                                    currency: "USD".to_string(),
                                    last_updated: now(),
                                };
                                (
                                    AccountPhase::Finished,
                                    AccountAction::Reply { result: Ok(AccountReply::AccountBalance(r)) },
                                )
                            },
                            AccountOperation::GetUserAccount { user_id } => {
                                let r = AccountResponse {
                                    id: account,
                                    account_number: self.tigerbeetle_service.generate_account_number(*user_id),
                                    account_type: "Savings".to_string(),
                                    currency: "USD".to_string(),
                                    current_balance: balance as i64,
                                };
                                (AccountPhase::Finished, AccountAction::Reply { result: Ok(AccountReply::Account(r)) })
                            },
                            _ => vstd::pervasive::unreached(),
                        }
                    },
                }
            },
            AccountPhase::Finished => vstd::pervasive::unreached(),
        }
    }
}

} // verus!
