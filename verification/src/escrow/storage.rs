//! The escrow record and the contract storage that holds it.

use crate::address::Address;
use vstd::prelude::*;

verus! {

/// All possible states an escrow can be in.
#[derive(Clone, Copy, Debug, PartialEq, Eq, Structural)]
pub enum EscrowStatus {
    /// Funds locked, waiting for freelancer to submit work.
    Active,
    /// Freelancer submitted work, waiting for payer approval.
    WorkSubmitted,
    /// Payer approved — funds released to freelancer.
    Completed,
    /// Payer cancelled before work was submitted — funds refunded.
    Cancelled,
    /// Deadline passed — payer reclaimed funds.
    Expired,
}

/// The core escrow data stored on-chain.
#[derive(Debug)]
pub struct EscrowData {
    pub payer: Address,
    pub freelancer: Address,
    /// Token contract address — stored at creation, used by approve/cancel/expire.
    pub token: Address,
    pub amount: i128,
    pub milestone: String,
    pub status: EscrowStatus,
    /// Optional ledger timestamp after which the payer can reclaim funds.
    pub deadline: Option<u64>,
}

impl Clone for EscrowData {
    fn clone(&self) -> (res: Self)
        ensures
            res == *self,
    {
        EscrowData {
            payer: self.payer.clone(),
            freelancer: self.freelancer.clone(),
            token: self.token.clone(),
            amount: self.amount,
            milestone: self.milestone.clone(),
            status: self.status,
            deadline: self.deadline,
        }
    }
}

/// Storage key for the escrow record.
#[derive(Clone, Copy, Debug, PartialEq, Eq, Structural)]
pub enum DataKey {
    Escrow,
}

/// The contract's instance storage: the record under `DataKey::Escrow`, if one was written.
#[derive(Debug)]
pub struct Storage {
    pub escrow: Option<EscrowData>,
}

/// Writes the escrow record.
pub fn save_escrow(store: &mut Storage, data: EscrowData)
    ensures
        final(store).escrow == Some(data),
{
    store.escrow = Some(data);
}

/// Reads the escrow record; there must be one.
pub fn load_escrow(store: &Storage) -> (res: EscrowData)
    requires
        store.escrow is Some,
    ensures
        res == store.escrow.unwrap(),
{
    store.escrow.as_ref().unwrap().clone()
}

/// Whether an escrow record was written.
pub fn has_escrow(store: &Storage) -> (res: bool)
    ensures
        res == store.escrow is Some,
{
    store.escrow.is_some()
}

} // verus!
