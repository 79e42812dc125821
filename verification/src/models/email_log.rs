use crate::time::Timestamp;
use vstd::prelude::*;

verus! {

/// A second-factor code as it was sent to an e-mail address.
#[derive(Clone, Debug)]
pub struct EmailLog {
    pub id: u128,
    pub email: String,
    pub code: String,
    pub created_at: Timestamp,
}

} // verus!
