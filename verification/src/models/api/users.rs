use vstd::prelude::*;

use crate::clock::{CalendarDate, Timestamp};
use crate::models::api::account::AccountResponse;
use crate::models::validation::{
    length_violation, optional_length_violation, range_violation, email_is_valid, validation_result,
    Checker, Rule, ValidationErrors,
};

verus! {

/// A change to the caller's profile: each field that is present replaces
/// the stored one.
pub struct UpdateUserRequest {
    pub first_name: Option<String>,
    pub last_name: Option<String>,
    pub phone: Option<String>,
}

/// The rules a profile change keeps (on the fields that are present).
pub open spec fn update_user_violations(r: UpdateUserRequest) -> Seq<(Seq<char>, Rule)> {
    optional_length_violation("first_name"@, r.first_name, Some(1u64), Some(100u64))
        + optional_length_violation("last_name"@, r.last_name, Some(1u64), Some(100u64))
        + optional_length_violation("phone"@, r.phone, None, Some(20u64))
}

impl UpdateUserRequest {
    /// The request's broken rules, if any.
    pub fn validate(&self) -> (res: Result<(), ValidationErrors>)
        ensures
            validation_result(res) == update_user_violations(*self),
            res is Ok <==> update_user_violations(*self).len() == 0,
    {
        let mut c = Checker::new();
        assert(c.seen() =~= Seq::<(Seq<char>, Rule)>::empty());
        c.optional_length("first_name", &self.first_name, Some(1), Some(100));
        c.optional_length("last_name", &self.last_name, Some(1), Some(100));
        c.optional_length("phone", &self.phone, None, Some(20));
        assert(c.seen() =~= update_user_violations(*self));
        c.finish()
    }
}

/// The user's profile as shown to the user.
pub struct UserResponse {
    pub id: u128,
    pub email: String,
    pub first_name: String,
    pub last_name: String,
    pub document_number: String,
    pub phone: Option<String>,
    pub date_of_birth: CalendarDate,
    pub is_active: bool,
    pub created_at: Timestamp,
}

/// The user's profile with the user's accounts.
pub struct UserAccountsResponse {
    pub user: UserResponse,
    pub accounts: Vec<AccountResponse>,
}

} // verus!
