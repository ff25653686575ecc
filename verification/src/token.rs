//! Token movements that contract logic asks the host to carry out.
use vstd::prelude::*;

verus! {

/// Move `amount` of the token at address `token` from `from` to `to`.
#[derive(Clone, Copy, Debug, PartialEq, Eq, Structural)]
pub struct TokenTransfer {
    pub token: u64,
    pub from: u64,
    pub to: u64,
    pub amount: i128,
}

} // verus!
