use vstd::prelude::*;

use crate::clock::{today, CalendarDate, Timestamp};
use crate::text::chars_of;

verus! {

/// A user of the bank, as stored in the `users` table.
pub struct User {
    pub id: u128,
    pub email: String,
    pub password_hash: String,
    pub first_name: String,
    pub last_name: String,
    pub document_number: String,
    pub phone: Option<String>,
    pub date_of_birth: CalendarDate,
    pub is_active: bool,
    pub tb_account_id: Option<u128>,
    pub created_at: Timestamp,
    pub updated_at: Timestamp,
}

/// A row of the `transaction_history` table: who started a movement of money,
/// between which ledger accounts, and how much (in cents).
pub struct TransactionHistory {
    pub id: u128,
    pub user_id: u128,
    pub from_account_id: u128,
    pub to_account_id: u128,
    pub amount_cents: i64,
    pub description: Option<String>,
    pub status: String,
    pub timestamp: Timestamp,
}

/// This year's birthday (by month and day) has not come yet on `today`.
pub open spec fn before_birthday(birth: CalendarDate, today: CalendarDate) -> bool {
    today.month < birth.month || (today.month == birth.month && today.day < birth.day)
}

/// The age in whole years on `today` of someone born on `birth`: the
/// difference of the years, less one while this year's birthday (the same
/// month and day) has not come.
pub open spec fn age_on(birth: CalendarDate, today: CalendarDate) -> int {
    if before_birthday(birth, today) {
        today.year - birth.year - 1
    } else {
        today.year - birth.year
    }
}

/// Whether `char::is_alphanumeric` holds of `c` (alphabetic or numeric in
/// the Unicode sense).
pub uninterp spec fn is_alphanumeric_char(c: char) -> bool;

/// `char::is_alphanumeric`. The Unicode tables behind it are not restated;
/// the result is named.
#[verifier::external_body]
pub fn char_is_alphanumeric(c: char) -> (res: bool)
    ensures
        res == is_alphanumeric_char(c),
{
    c.is_alphanumeric()
}

impl User {
    /// Whether the user is at least 18 years old on the given day: from the
    /// 18th birthday on (same month and day), it is.
    pub fn is_adult_on(&self, today: CalendarDate) -> (res: bool)
        ensures
            res == (age_on(self.date_of_birth, today) >= 18),
    {
        let mut age: i64 = today.year as i64 - self.date_of_birth.year as i64;
        let b = self.date_of_birth;
        if today.month < b.month || (today.month == b.month && today.day < b.day) {
            age = age - 1;
        }
        age >= 18
    }

    /// Whether the user is at least 18 years old today (UTC).
    pub fn is_adult(&self) -> (res: bool)
        ensures
            exists|d: CalendarDate| 1 <= d.month <= 12 && 1 <= d.day <= 31 && res == (age_on(self.date_of_birth, d) >= 18),
    {
        let d = today();
        self.is_adult_on(d)
    }

    /// Whether the document number is made of letters and digits only.
    pub fn is_valid_document(&self) -> (res: bool)
        ensures
            res == (forall|i: int|
                0 <= i < self.document_number@.len() ==> #[trigger] is_alphanumeric_char(
                    self.document_number@[i],
                )),
    {
        let chars = chars_of(self.document_number.as_str());
        let mut i: usize = 0;
        while i < chars.len()
            invariant
                i <= chars.len(),
                chars@ == self.document_number@,
                forall|k: int| 0 <= k < i ==> #[trigger] is_alphanumeric_char(chars@[k]),
            decreases chars.len() - i,
        {
            if !char_is_alphanumeric(chars[i]) {
                return false;
            }
            i = i + 1;
        }
        true
    }
}

} // verus!
