use crate::time::Timestamp;
use vstd::prelude::*;

verus! {

/// A pending second-factor check: the hash of the code that was sent, until
/// when it may be answered, and whether it was answered already.
#[derive(Clone, Debug)]
pub struct LoginChallenge {
    pub id: u128,
    pub user_id: u128,
    pub code_hash: String,
    pub expires_at: Timestamp,
    pub used: bool,
    pub created_at: Timestamp,
}

} // verus!
