use vstd::prelude::*;

use crate::config::Config;
use crate::ids::new_random_id;
use crate::services::tigerbeetle_service::{
    account_from_lookup_spec, available_balance, ledger_answered, LedgerAccount, LedgerError,
    LedgerTransfer, NewLedgerAccount, TigerBeetleService, BANK_CODE, BANK_LEDGER,
};

verus! {

/// The bank's ledger account when none is configured
/// (`00000000-0000-0000-0000-000000000001`).
pub const DEFAULT_BANK_ACCOUNT: u128 = 1;

/// The account the bank's funds are drawn from
/// (`00000000-0000-0000-0000-000000000002`).
pub const SYSTEM_ACCOUNT: u128 = 2;

/// The bank's starting funds when none are configured: $100M in cents.
pub const DEFAULT_INITIAL_BALANCE: u64 = 10_000_000_000;

/// Below this balance ($1M in cents) the bank's account is topped up.
pub const LOW_BALANCE: u64 = 100_000_000;

/// The bank account to prepare at start-up, and the funds it starts with.
#[derive(PartialEq, Eq, Structural, Clone, Copy, Debug)]
pub struct BankSetup {
    pub bank: u128,
    pub initial_balance: u64,
}

/// How the preparation of the bank account ended.
pub enum BankSetupOutcome {
    /// The ledger did not answer; nothing was done.
    LedgerUnavailable,
    /// The account exists with enough money.
    Sufficient { balance: u64 },
    /// The account existed with little money and was topped up.
    Funded { amount: u64 },
    /// Topping up failed, with this message.
    FundingFailed { message: String },
    /// The account did not exist; its creation gave `creation`, and the
    /// account was then looked up again.
    Created { creation: Result<(), String>, account: Result<LedgerAccount, LedgerError> },
}

/// Where the preparation stands.
pub enum BankSetupPhase {
    Start,
    /// Probed the ledger's health.
    AwaitHealth,
    /// Looked the bank's account up.
    AwaitBankLookup,
    /// Looked it up again, for its balance.
    AwaitBankBalance,
    /// Looked the system account up.
    AwaitSystemLookup,
    /// Sent the creation of the system account.
    AwaitSystemCreation,
    /// Sent the transfer of the funds.
    AwaitFunding,
    /// Sent the creation of the bank's account.
    AwaitBankCreation,
    /// Looked the new account up, to show it.
    AwaitCreatedLookup { creation: Result<(), String> },
    Finished,
}

/// What the ledger answered.
pub enum BankSetupEvent {
    Begin,
    AccountsFound(Result<Vec<LedgerAccount>, String>),
    AccountCreated(Result<(), String>),
    TransferCreated(Result<(), String>),
}

/// What to do next.
pub enum BankSetupAction {
    LookupAccount { account_id: u128 },
    CreateAccount { account: NewLedgerAccount },
    CreateTransfer { transfer: LedgerTransfer },
    Done { outcome: BankSetupOutcome },
}

/// The events each phase waits for.
pub open spec fn setup_expects(phase: BankSetupPhase, event: BankSetupEvent) -> bool {
    match phase {
        BankSetupPhase::Start => event is Begin,
        BankSetupPhase::AwaitHealth => event is AccountsFound,
        BankSetupPhase::AwaitBankLookup => event is AccountsFound,
        BankSetupPhase::AwaitBankBalance => event is AccountsFound,
        BankSetupPhase::AwaitSystemLookup => event is AccountsFound,
        BankSetupPhase::AwaitSystemCreation => event is AccountCreated,
        BankSetupPhase::AwaitFunding => event is TransferCreated,
        BankSetupPhase::AwaitBankCreation => event is AccountCreated,
        BankSetupPhase::AwaitCreatedLookup { .. } => event is AccountsFound,
        BankSetupPhase::Finished => false,
    }
}

/// The account record for `id`, owned by itself.
pub open spec fn own_account(id: u128) -> NewLedgerAccount {
    NewLedgerAccount { id, user_data_128: id, ledger: BANK_LEDGER, code: BANK_CODE, debits_must_not_exceed_credits: true }
}

/// The transfer of the bank's starting funds from the system account.
pub open spec fn funding_transfer(setup: BankSetup, t: LedgerTransfer) -> bool {
    &&& t.debit_account_id == SYSTEM_ACCOUNT
    &&& t.credit_account_id == setup.bank
    &&& t.ledger == BANK_LEDGER
    &&& t.code == BANK_CODE
    &&& t.amount == setup.initial_balance as u128
}

/// The balance shown for the bank's account: none when it cannot be read.
pub open spec fn balance_or_zero(found: Result<Vec<LedgerAccount>, String>) -> u64 {
    match account_from_lookup_spec(found) {
        Ok(a) => available_balance(a),
        Err(_) => 0,
    }
}

/// One step of the preparation of the bank's account.
pub open spec fn setup_step(setup: BankSetup, phase: BankSetupPhase, event: BankSetupEvent, res: (BankSetupPhase, BankSetupAction)) -> bool {
    match (phase, event) {
        (BankSetupPhase::Start, _) => res.0 is AwaitHealth && res.1 is LookupAccount,
        (BankSetupPhase::AwaitHealth, BankSetupEvent::AccountsFound(found)) => if ledger_answered(
            account_from_lookup_spec(found),
        ) {
            res.0 is AwaitBankLookup && (res.1 matches BankSetupAction::LookupAccount { account_id } && account_id
                == setup.bank)
        } else {
            res.0 is Finished && (res.1 matches BankSetupAction::Done { outcome } && outcome is LedgerUnavailable)
        },
        (BankSetupPhase::AwaitBankLookup, BankSetupEvent::AccountsFound(found)) => if account_from_lookup_spec(found) is Ok {
            res.0 is AwaitBankBalance && (res.1 matches BankSetupAction::LookupAccount { account_id } && account_id
                == setup.bank)
        } else {
            res.0 is AwaitBankCreation && (res.1 matches BankSetupAction::CreateAccount { account } && account
                == own_account(setup.bank))
        },
        (BankSetupPhase::AwaitBankBalance, BankSetupEvent::AccountsFound(found)) => if balance_or_zero(found) < LOW_BALANCE {
            res.0 is AwaitSystemLookup && (res.1 matches BankSetupAction::LookupAccount { account_id } && account_id
                == SYSTEM_ACCOUNT)
        } else {
            res.0 is Finished && (res.1 matches BankSetupAction::Done { outcome: BankSetupOutcome::Sufficient { balance } }
                && balance == balance_or_zero(found))
        },
        (BankSetupPhase::AwaitSystemLookup, BankSetupEvent::AccountsFound(found)) => if account_from_lookup_spec(found) is Ok {
            res.0 is AwaitFunding && (res.1 matches BankSetupAction::CreateTransfer { transfer } && funding_transfer(
                setup,
                transfer,
            ))
        } else {
            res.0 is AwaitSystemCreation && (res.1 matches BankSetupAction::CreateAccount { account } && account
                == own_account(SYSTEM_ACCOUNT))
        },
        (BankSetupPhase::AwaitSystemCreation, BankSetupEvent::AccountCreated(created)) => match created {
            Err(m) => res.0 is Finished && (res.1 matches BankSetupAction::Done {
                outcome: BankSetupOutcome::FundingFailed { message },
            } && message == m),
            Ok(_) => res.0 is AwaitFunding && (res.1 matches BankSetupAction::CreateTransfer { transfer }
                && funding_transfer(setup, transfer)),
        },
        (BankSetupPhase::AwaitFunding, BankSetupEvent::TransferCreated(done)) => res.0 is Finished && match done {
            Err(m) => res.1 matches BankSetupAction::Done { outcome: BankSetupOutcome::FundingFailed { message } }
                && message == m,
            Ok(_) => res.1 matches BankSetupAction::Done { outcome: BankSetupOutcome::Funded { amount } } && amount
                == setup.initial_balance,
        },
        (BankSetupPhase::AwaitBankCreation, BankSetupEvent::AccountCreated(created)) => (res.0 matches BankSetupPhase::AwaitCreatedLookup {
            creation,
        } && creation == created) && (res.1 matches BankSetupAction::LookupAccount { account_id } && account_id
            == setup.bank),
        (BankSetupPhase::AwaitCreatedLookup { creation }, BankSetupEvent::AccountsFound(found)) => res.0 is Finished && (
        res.1 matches BankSetupAction::Done { outcome: BankSetupOutcome::Created { creation: c, account } } && c
            == creation && account == account_from_lookup_spec(found)),
        _ => false,
    }
}

/// Money moves only from the system account into the bank's account, by the
/// configured amount, and only once a low balance sent the preparation to
/// the system account; the bank's account is only created after a lookup
/// did not find it.
pub proof fn law_setup_moves_money_only_to_fund_the_bank(
    setup: BankSetup,
    phase: BankSetupPhase,
    event: BankSetupEvent,
    res: (BankSetupPhase, BankSetupAction),
)
    requires
        setup_step(setup, phase, event, res),
    ensures
        res.1 matches BankSetupAction::CreateTransfer { transfer } ==> funding_transfer(setup, transfer) && (
        phase is AwaitSystemLookup || phase is AwaitSystemCreation),
        res.1 matches BankSetupAction::CreateAccount { account } ==> (account == own_account(setup.bank) && phase is AwaitBankLookup
            && (event matches BankSetupEvent::AccountsFound(found) && account_from_lookup_spec(found) is Err)) || (account
            == own_account(SYSTEM_ACCOUNT) && phase is AwaitSystemLookup),
        res.0 is AwaitSystemLookup ==> phase is AwaitBankBalance && (event matches BankSetupEvent::AccountsFound(found)
            && balance_or_zero(found) < LOW_BALANCE),
{
}

/// The bank's account is topped up exactly when its balance is below $1M
/// (100,000,000 cents): a balance below that (or an account that cannot be
/// read, counted as empty) sends the preparation to the system account,
/// and any other balance ends it, reporting that balance. (A balance above
/// `u64::MAX` cents is left out: it is cut to 64 bits as it is read.)
pub proof fn law_low_bank_balance_is_topped_up(
    setup: BankSetup,
    found: Result<Vec<LedgerAccount>, String>,
    res: (BankSetupPhase, BankSetupAction),
)
    requires
        setup_step(setup, BankSetupPhase::AwaitBankBalance, BankSetupEvent::AccountsFound(found), res),
        match found {
            Ok(v) => v@.len() > 0 ==> v@[0].credits_posted - v@[0].debits_posted <= u64::MAX,
            Err(_) => true,
        },
    ensures
        ({
            let balance: int = match found {
                Ok(v) => if v@.len() > 0 && v@[0].credits_posted >= v@[0].debits_posted {
                    v@[0].credits_posted - v@[0].debits_posted
                } else {
                    0
                },
                Err(_) => 0,
            };
            &&& balance < 100_000_000 <==> (res.0 is AwaitSystemLookup && (res.1 matches BankSetupAction::LookupAccount {
                account_id,
            } && account_id == SYSTEM_ACCOUNT))
            &&& balance >= 100_000_000 <==> (res.0 is Finished && (res.1 matches BankSetupAction::Done {
                outcome: BankSetupOutcome::Sufficient { balance: b },
            } && b == balance))
        }),
{
}

impl BankSetup {
    /// The bank account to prepare: the configured one (or the default), with
    /// the configured starting funds (or the default).
    pub fn from_config(config: &Config) -> (res: BankSetup)
        ensures
            res.bank == match config.bank_account_uuid {
                Some(b) => b,
                None => DEFAULT_BANK_ACCOUNT,
            },
            res.initial_balance == match config.bank_initial_balance {
                Some(b) => b,
                None => DEFAULT_INITIAL_BALANCE,
            },
    {
        BankSetup {
            bank: match config.bank_account_uuid {
                Some(b) => b,
                None => DEFAULT_BANK_ACCOUNT,
            },
            initial_balance: match config.bank_initial_balance {
                Some(b) => b,
                None => DEFAULT_INITIAL_BALANCE,
            },
        }
    }

    fn funding(&self, ledger: &TigerBeetleService) -> (res: BankSetupAction)
        ensures
            res matches BankSetupAction::CreateTransfer { transfer } && funding_transfer(*self, transfer),
    {
        BankSetupAction::CreateTransfer {
            transfer: ledger.transfer_record(new_random_id(), SYSTEM_ACCOUNT, self.bank, self.initial_balance),
        }
    }

    /// One step of the preparation of the bank's account at start-up: probe
    /// the ledger; when the bank's account exists, top it up from the system
    /// account if its balance is low; else create it.
    pub fn step(&self, phase: BankSetupPhase, event: BankSetupEvent) -> (res: (BankSetupPhase, BankSetupAction))
        requires
            setup_expects(phase, event),
        ensures
            setup_step(*self, phase, event, res),
    {
        let ledger = TigerBeetleService::new();
        match phase {
            BankSetupPhase::Start => (
                BankSetupPhase::AwaitHealth,
                BankSetupAction::LookupAccount { account_id: new_random_id() },
            ),
            BankSetupPhase::AwaitHealth => {
                let found = match event {
                    BankSetupEvent::AccountsFound(f) => f,
                    _ => vstd::pervasive::unreached(),
                };
                if ledger.health_from_lookup(ledger.account_from_lookup(found)) {
                    (BankSetupPhase::AwaitBankLookup, BankSetupAction::LookupAccount { account_id: self.bank })
                } else {
                    (
                        BankSetupPhase::Finished,
                        BankSetupAction::Done { outcome: BankSetupOutcome::LedgerUnavailable },
                    )
                }
            },
            BankSetupPhase::AwaitBankLookup => {
                let found = match event {
                    BankSetupEvent::AccountsFound(f) => f,
                    _ => vstd::pervasive::unreached(),
                };
                match ledger.account_from_lookup(found) {
                    Ok(_) => (BankSetupPhase::AwaitBankBalance, BankSetupAction::LookupAccount { account_id: self.bank }),
                    Err(_) => (
                        BankSetupPhase::AwaitBankCreation,
                        BankSetupAction::CreateAccount { account: ledger.account_record(self.bank, self.bank) },
                    ),
                }
            },
            BankSetupPhase::AwaitBankBalance => {
                let found = match event {
                    BankSetupEvent::AccountsFound(f) => f,
                    _ => vstd::pervasive::unreached(),
                };
                let balance = match ledger.account_from_lookup(found) {
                    Ok(a) => ledger.balance_of(&a),
                    Err(_) => 0,
                };
                if balance < LOW_BALANCE {
                    (BankSetupPhase::AwaitSystemLookup, BankSetupAction::LookupAccount { account_id: SYSTEM_ACCOUNT })
                } else {
                    (BankSetupPhase::Finished, BankSetupAction::Done { outcome: BankSetupOutcome::Sufficient { balance } })
                }
            },
            BankSetupPhase::AwaitSystemLookup => {
                let found = match event {
                    BankSetupEvent::AccountsFound(f) => f,
                    _ => vstd::pervasive::unreached(),
                };
                match ledger.account_from_lookup(found) {
                    Ok(_) => (BankSetupPhase::AwaitFunding, self.funding(&ledger)),
                    Err(_) => (
                        BankSetupPhase::AwaitSystemCreation,
                        BankSetupAction::CreateAccount { account: ledger.account_record(SYSTEM_ACCOUNT, SYSTEM_ACCOUNT) },
                    ),
                }
            },
            BankSetupPhase::AwaitSystemCreation => {
                let created = match event {
                    BankSetupEvent::AccountCreated(c) => c,
                    _ => vstd::pervasive::unreached(),
                };
                match created {
                    Err(m) => (
                        BankSetupPhase::Finished,
                        BankSetupAction::Done { outcome: BankSetupOutcome::FundingFailed { message: m } },
                    ),
                    Ok(_) => (BankSetupPhase::AwaitFunding, self.funding(&ledger)),
                }
            },
            BankSetupPhase::AwaitFunding => {
                let done = match event {
                    BankSetupEvent::TransferCreated(d) => d,
                    _ => vstd::pervasive::unreached(),
                };
                match done {
                    Err(m) => (
                        BankSetupPhase::Finished,
                        BankSetupAction::Done { outcome: BankSetupOutcome::FundingFailed { message: m } },
                    ),
                    Ok(_) => (
                        BankSetupPhase::Finished,
                        BankSetupAction::Done { outcome: BankSetupOutcome::Funded { amount: self.initial_balance } },
                    ),
                }
            },
            BankSetupPhase::AwaitBankCreation => {
                let created = match event {
                    BankSetupEvent::AccountCreated(c) => c,
                    _ => vstd::pervasive::unreached(),
                };
                (
                    BankSetupPhase::AwaitCreatedLookup { creation: created },
                    BankSetupAction::LookupAccount { account_id: self.bank },
                )
            },
            BankSetupPhase::AwaitCreatedLookup { creation } => {
                let found = match event {
                    BankSetupEvent::AccountsFound(f) => f,
                    _ => vstd::pervasive::unreached(),
                };
                let account = ledger.account_from_lookup(found);
                (BankSetupPhase::Finished, BankSetupAction::Done { outcome: BankSetupOutcome::Created { creation, account } })
            },
            BankSetupPhase::Finished => vstd::pervasive::unreached(),
        }
    }
}

} // verus!
