use vstd::prelude::*;

use crate::text::{contains_str, contains_text, decimal, push_zero_padded, zero_padded};

verus! {

/// The ledger (book) every account and transfer of the bank is kept in.
pub const BANK_LEDGER: u32 = 1;

/// The account and transfer code the bank uses.
pub const BANK_CODE: u16 = 1;

/// An account of the ledger, as looked up: what the service reads of it.
#[derive(PartialEq, Eq, Structural, Clone, Copy, Debug)]
pub struct LedgerAccount {
    pub id: u128,
    pub user_data_128: u128,
    pub ledger: u32,
    pub code: u16,
    pub credits_posted: u128,
    pub debits_posted: u128,
}

/// An account to be created in the ledger.
#[derive(PartialEq, Eq, Structural, Clone, Copy, Debug)]
pub struct NewLedgerAccount {
    pub id: u128,
    pub user_data_128: u128,
    pub ledger: u32,
    pub code: u16,
    /// The ledger refuses any transfer that would take the account's debits
    /// above its credits.
    pub debits_must_not_exceed_credits: bool,
}

/// A transfer to be posted in the ledger: `amount` moves from the debit
/// account to the credit account.
#[derive(PartialEq, Eq, Structural, Clone, Copy, Debug)]
pub struct LedgerTransfer {
    pub id: u128,
    pub debit_account_id: u128,
    pub credit_account_id: u128,
    pub ledger: u32,
    pub code: u16,
    pub amount: u128,
}

/// Why an account could not be read from the ledger.
pub enum LedgerError {
    /// The ledger answered, and has no such account.
    NotFound,
    /// The ledger client failed, with this message.
    Client(String),
}

/// A ledger error as plain values.
pub enum LedgerErrorView {
    NotFound,
    Client(Seq<char>),
}

impl View for LedgerError {
    type V = LedgerErrorView;

    open spec fn view(&self) -> LedgerErrorView {
        match self {
            LedgerError::NotFound => LedgerErrorView::NotFound,
            LedgerError::Client(m) => LedgerErrorView::Client(m@),
        }
    }
}

/// The message of "no such account".
pub open spec fn account_not_found_text() -> Seq<char> {
    "Cuenta no encontrada en TigerBeetle"@
}

/// The message of a ledger error.
pub open spec fn ledger_error_text(e: LedgerError) -> Seq<char> {
    match e {
        LedgerError::NotFound => account_not_found_text(),
        LedgerError::Client(m) => m@,
    }
}

impl LedgerError {
    /// The message of the error.
    pub fn message(&self) -> (res: String)
        ensures
            res@ == ledger_error_text(*self),
    {
        match self {
            LedgerError::NotFound => "Cuenta no encontrada en TigerBeetle".to_string(),
            LedgerError::Client(m) => m.clone(),
        }
    }
}

/// The account number shown for a user: `001-` and the last eight decimal
/// digits of the user's id, zero padded.
pub open spec fn account_number_text(user_id: u128) -> Seq<char> {
    "001-"@ + zero_padded(decimal((user_id % 100000000) as nat), 8)
}

/// The balance available in an account: credits less debits, never below
/// zero, cut to 64 bits.
pub open spec fn available_balance(a: LedgerAccount) -> u64 {
    if a.credits_posted >= a.debits_posted {
        (a.credits_posted - a.debits_posted) as u128 as u64
    } else {
        0
    }
}

/// The account found by a lookup of one id: the first account returned, an
/// empty answer being "not found", a failed lookup its client error.
pub open spec fn account_from_lookup_spec(found: Result<Vec<LedgerAccount>, String>) -> Result<LedgerAccount, LedgerError> {
    match found {
        Err(m) => Err(LedgerError::Client(m)),
        Ok(v) => if v@.len() > 0 {
            Ok(v@[0])
        } else {
            Err(LedgerError::NotFound)
        },
    }
}

/// The ledger answered a lookup: it found the account, or failed with a
/// message that says the account was not found.
pub open spec fn ledger_answered(found: Result<LedgerAccount, LedgerError>) -> bool {
    match found {
        Ok(_) => true,
        Err(e) => contains_text(ledger_error_text(e), "no encontrada"@) || contains_text(
            ledger_error_text(e),
            "not found"@,
        ),
    }
}

/// The number of accounts asked for in one request of an account count,
/// within the ledger's limit on a query's answer.
pub const COUNT_PAGE: u32 = 8000;

/// What to do next in a count of the ledger's accounts.
pub enum AccountCountAction {
    /// Ask the ledger for up to `COUNT_PAGE` accounts created at
    /// `timestamp_min` or later (in nanoseconds), oldest first; `counted`
    /// accounts are counted so far.
    Query { counted: usize, timestamp_min: u64 },
    /// The number of accounts, or why the ledger could not be asked.
    Done { result: Result<usize, String> },
}

/// A page of creation times ends the count: it is short, or its last account
/// is the latest one that the ledger can hold.
pub open spec fn count_is_final(page: Seq<u64>) -> bool {
    page.len() < COUNT_PAGE || page.last() >= u64::MAX - 1
}

/// The accounts of a ledger (given by their creation times, which the
/// ledger keeps unique) created before `t`.
pub open spec fn created_before(ledger: Set<u64>, t: int) -> Set<u64> {
    ledger.filter(|x: u64| x < t)
}

/// `page` is the ledger's answer to a request for up to `COUNT_PAGE`
/// accounts created at `min` or later, oldest first: strictly ascending
/// creation times of its accounts from `min` on, with no account left out
/// before the last one; a short page holds all of them.
pub open spec fn answers_query(ledger: Set<u64>, min: u64, page: Seq<u64>) -> bool {
    &&& page.len() <= COUNT_PAGE
    &&& forall|i: int, j: int| 0 <= i < j < page.len() ==> page[i] < page[j]
    &&& forall|i: int| 0 <= i < page.len() ==> ledger.contains(#[trigger] page[i]) && min <= page[i]
    &&& page.len() > 0 ==> forall|t: u64| #[trigger] ledger.contains(t) && min <= t <= page.last() ==> page.contains(t)
    &&& page.len() < COUNT_PAGE ==> forall|t: u64| #[trigger] ledger.contains(t) && min <= t ==> page.contains(t)
}

/// The paged count counts the ledger's accounts: it starts with none
/// counted; while the ledger answers each request as asked, the accounts
/// counted are those created before the next request's start; and the
/// count it ends with is the number of accounts in the ledger. (The ledger
/// never gives an account the creation time `u64::MAX`.)
pub proof fn law_paged_count_counts_the_ledger(ledger: Set<u64>, counted: int, min: u64, page: Seq<u64>)
    requires
        ledger.finite(),
        forall|t: u64| #[trigger] ledger.contains(t) ==> t < u64::MAX,
        counted == created_before(ledger, min as int).len(),
        answers_query(ledger, min, page),
    ensures
        created_before(ledger, 0).len() == 0,
        count_is_final(page) ==> counted + page.len() == ledger.len(),
        !count_is_final(page) ==> counted + page.len() == created_before(ledger, page.last() + 1).len(),
{
    assert(created_before(ledger, 0) =~= Set::<u64>::empty());
    let a = created_before(ledger, min as int);
    let p = page.to_set();
    ledger.lemma_len_filter(|x: u64| x < min as int);
    assert(page.no_duplicates()) by {
        assert forall|i: int, j: int| 0 <= i < page.len() && 0 <= j < page.len() && i != j implies page[i]
            != page[j] by {
            if i < j {
            } else {
            }
        }
    }
    page.unique_seq_to_set();
    assert(p.subset_of(ledger)) by {
        assert forall|x: u64| p.contains(x) implies ledger.contains(x) by {
            let i = choose|i: int| 0 <= i < page.len() && page[i] == x;
            assert(ledger.contains(page[i]));
        }
    }
    vstd::set_lib::lemma_len_subset(p, ledger);
    assert(a.disjoint(p)) by {
        assert forall|x: u64| a.contains(x) implies !p.contains(x) by {
            if p.contains(x) {
                let i = choose|i: int| 0 <= i < page.len() && page[i] == x;
                assert(min <= page[i]);
            }
        }
    }
    vstd::set_lib::lemma_set_disjoint_lens(a, p);
    if count_is_final(page) {
        assert((a + p) =~= ledger) by {
            assert forall|x: u64| ledger.contains(x) implies (a + p).contains(x) by {
                if x >= min {
                    if page.len() < COUNT_PAGE {
                        assert(page.contains(x));
                    } else {
                        assert(x <= page.last());
                        assert(page.contains(x));
                    }
                }
            }
            assert forall|x: u64| (a + p).contains(x) implies ledger.contains(x) by {
                if p.contains(x) {
                    let i = choose|i: int| 0 <= i < page.len() && page[i] == x;
                    assert(ledger.contains(page[i]));
                }
            }
        }
    } else {
        let last = page.last();
        assert((a + p) =~= created_before(ledger, last + 1)) by {
            assert forall|x: u64| #[trigger] created_before(ledger, last + 1).contains(x) implies (a + p).contains(
                x,
            ) by {
                if x >= min {
                    assert(ledger.contains(x) && min <= x <= page.last());
                    assert(page.contains(x));
                }
            }
            assert forall|x: u64| (a + p).contains(x) implies #[trigger] created_before(ledger, last + 1).contains(
                x,
            ) by {
                if p.contains(x) {
                    let i = choose|i: int| 0 <= i < page.len() && page[i] == x;
                    assert(ledger.contains(page[i]));
                    if i < page.len() - 1 {
                        assert(page[i] < page[page.len() - 1]);
                    }
                }
            }
        }
    }
}

/// The parts of the ledger service that decide and compute; the calls to the
/// ledger are made by its callers with the records built here.
pub struct TigerBeetleService {}

impl TigerBeetleService {
    pub fn new() -> (res: TigerBeetleService) {
        TigerBeetleService {  }
    }

    /// The account to create for `account_id`, owned by `user_id`: in the
    /// bank's ledger with the bank's code, the owner in its user data, and
    /// debits never above credits.
    pub fn account_record(&self, account_id: u128, user_id: u128) -> (res: NewLedgerAccount)
        ensures
            res == (NewLedgerAccount {
                id: account_id,
                user_data_128: user_id,
                ledger: BANK_LEDGER,
                code: BANK_CODE,
                debits_must_not_exceed_credits: true,
            }),
    {
        NewLedgerAccount {
            id: account_id,
            user_data_128: user_id,
            ledger: BANK_LEDGER,
            code: BANK_CODE,
            debits_must_not_exceed_credits: true,
        }
    }

    /// The transfer of `amount` from `from_account_id` to `to_account_id`,
    /// under the id `transfer_id`, in the bank's ledger with the bank's code.
    pub fn transfer_record(&self, transfer_id: u128, from_account_id: u128, to_account_id: u128, amount: u64) -> (res: LedgerTransfer)
        ensures
            res == (LedgerTransfer {
                id: transfer_id,
                debit_account_id: from_account_id,
                credit_account_id: to_account_id,
                ledger: BANK_LEDGER,
                code: BANK_CODE,
                amount: amount as u128,
            }),
    {
        LedgerTransfer {
            id: transfer_id,
            debit_account_id: from_account_id,
            credit_account_id: to_account_id,
            ledger: BANK_LEDGER,
            code: BANK_CODE,
            amount: amount as u128,
        }
    }

    /// The account that a lookup of one id gives.
    pub fn account_from_lookup(&self, found: Result<Vec<LedgerAccount>, String>) -> (res: Result<LedgerAccount, LedgerError>)
        ensures
            res == account_from_lookup_spec(found),
    {
        match found {
            Err(m) => Err(LedgerError::Client(m)),
            Ok(v) => {
                if v.len() > 0 {
                    Ok(v[0])
                } else {
                    Err(LedgerError::NotFound)
                }
            },
        }
    }

    /// The balance of an account: credits less
    /// debits, saturating at zero, cut to 64 bits.
    pub fn balance_of(&self, account: &LedgerAccount) -> (res: u64)
        ensures
            res == available_balance(*account),
    {
        let b: u128 = account.credits_posted.saturating_sub(account.debits_posted);
        b as u64
    }

    /// The account number shown for a user.
    pub fn generate_account_number(&self, user_id: u128) -> (res: String)
        ensures
            res@ == account_number_text(user_id),
    {
        let mut s = "001-".to_string();
        proof {
            reveal_strlit("001-");
        }
        push_zero_padded(&mut s, user_id % 100000000, 8);
        s
    }

    /// Whether the ledger is healthy, given what a lookup of a fresh random
    /// id gave: an account, or an error whose message says
    /// that the account was not found, both show that the ledger answered.
    pub fn health_from_lookup(&self, found: Result<LedgerAccount, LedgerError>) -> (res: bool)
        ensures
            res == ledger_answered(found),
    {
        match found {
            Ok(_) => true,
            Err(e) => {
                let m = e.message();
                contains_str(m.as_str(), "no encontrada") || contains_str(m.as_str(), "not found")
            },
        }
    }

    /// The first request of an account count: the oldest accounts, none
    /// counted yet.
    pub fn accounts_count_start(&self) -> (res: AccountCountAction)
        ensures
            res == (AccountCountAction::Query { counted: 0, timestamp_min: 0 }),
    {
        AccountCountAction::Query { counted: 0, timestamp_min: 0 }
    }

    /// One step of the count of the ledger's accounts (`get_accounts_count`),
    /// given the accounts counted so far, the creation time the last request
    /// started at, and the creation times of the accounts the ledger answered
    /// (up to `COUNT_PAGE`, oldest first). A short page is the last, and the
    /// count is the accounts counted so far and on it; a full page asks for
    /// the accounts created after its last one. A failed request is the
    /// ledger's error, prefixed.
    pub fn accounts_count_step(&self, counted: usize, timestamp_min: u64, page: Result<Vec<u64>, String>) -> (res: AccountCountAction)
        requires
            page matches Ok(p) ==> counted + p@.len() <= usize::MAX,
        ensures
            match page {
                Err(m) => res matches AccountCountAction::Done { result: Err(e) } && e@ == "TigerBeetle no responde: "@
                    + m@,
                Ok(p) => if count_is_final(p@) {
                    res matches AccountCountAction::Done { result: Ok(n) } && n == counted + p@.len()
                } else {
                    res matches AccountCountAction::Query { counted: c, timestamp_min: t } && c == counted + p@.len()
                        && t == p@.last() + 1
                },
            },
    {
        match page {
            Err(m) => {
                let mut e = "TigerBeetle no responde: ".to_string();
                proof {
                    reveal_strlit("TigerBeetle no responde: ");
                }
                e.append(m.as_str());
                AccountCountAction::Done { result: Err(e) }
            },
            Ok(p) => {
                let n = counted + p.len();
                if p.len() < COUNT_PAGE as usize {
                    AccountCountAction::Done { result: Ok(n) }
                } else {
                    let last = p[p.len() - 1];
                    if last >= u64::MAX - 1 {
                        AccountCountAction::Done { result: Ok(n) }
                    } else {
                        AccountCountAction::Query { counted: n, timestamp_min: last + 1 }
                    }
                }
            },
        }
    }
}

} // verus!
