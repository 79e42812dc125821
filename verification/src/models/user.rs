use vstd::prelude::*;

verus! {

/// A user account.
#[derive(Clone, Debug)]
pub struct User {
    pub id: u128,
    pub full_name: String,
    pub email: String,
    pub hashed_password: String,
    pub role: String,
}

} // verus!
