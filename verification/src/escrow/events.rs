//! The events the escrow contract emits, as values.

use crate::address::Address;
use vstd::prelude::*;

verus! {

/// An event of the escrow contract: its topic is the variant's name in snake case.
#[derive(Debug)]
pub enum EscrowEvent {
    /// An escrow was created and funds are locked.
    EscrowCreated { payer: Address, freelancer: Address, amount: i128, milestone: String },
    /// The freelancer submitted their work.
    WorkSubmitted { freelancer: Address },
    /// The payer approved and funds were released.
    PaymentReleased { freelancer: Address, amount: i128 },
    /// The payer cancelled and funds were refunded.
    EscrowCancelled { payer: Address, amount: i128 },
    /// The deadline passed and the payer reclaimed the funds.
    EscrowExpired { payer: Address, amount: i128 },
}

/// The topic under which an event is published.
pub open spec fn topic_of(event: EscrowEvent) -> Seq<char> {
    match event {
        EscrowEvent::EscrowCreated { .. } => "escrow_created"@,
        EscrowEvent::WorkSubmitted { .. } => "work_submitted"@,
        EscrowEvent::PaymentReleased { .. } => "payment_released"@,
        EscrowEvent::EscrowCancelled { .. } => "escrow_cancelled"@,
        EscrowEvent::EscrowExpired { .. } => "escrow_expired"@,
    }
}

impl EscrowEvent {
    /// The topic under which this event is published.
    pub fn topic(&self) -> (res: &'static str)
        ensures
            res@ == topic_of(*self),
    {
        match self {
            EscrowEvent::EscrowCreated { .. } => "escrow_created",
            EscrowEvent::WorkSubmitted { .. } => "work_submitted",
            EscrowEvent::PaymentReleased { .. } => "payment_released",
            EscrowEvent::EscrowCancelled { .. } => "escrow_cancelled",
            EscrowEvent::EscrowExpired { .. } => "escrow_expired",
        }
    }
}

/// Emitted when an escrow is created and funds are locked.
pub fn escrow_created(payer: &Address, freelancer: &Address, amount: i128, milestone: &String) -> (res:
    EscrowEvent)
    ensures
        res == (EscrowEvent::EscrowCreated {
            payer: *payer,
            freelancer: *freelancer,
            amount,
            milestone: *milestone,
        }),
{
    EscrowEvent::EscrowCreated {
        payer: payer.clone(),
        freelancer: freelancer.clone(),
        amount,
        milestone: milestone.clone(),
    }
}

/// Emitted when the freelancer submits their work.
pub fn work_submitted(freelancer: &Address) -> (res: EscrowEvent)
    ensures
        res == (EscrowEvent::WorkSubmitted { freelancer: *freelancer }),
{
    EscrowEvent::WorkSubmitted { freelancer: freelancer.clone() }
}

/// Emitted when the payer approves and funds are released.
pub fn payment_released(freelancer: &Address, amount: i128) -> (res: EscrowEvent)
    ensures
        res == (EscrowEvent::PaymentReleased { freelancer: *freelancer, amount }),
{
    EscrowEvent::PaymentReleased { freelancer: freelancer.clone(), amount }
}

/// Emitted when the payer cancels and funds are refunded.
pub fn escrow_cancelled(payer: &Address, amount: i128) -> (res: EscrowEvent)
    ensures
        res == (EscrowEvent::EscrowCancelled { payer: *payer, amount }),
{
    EscrowEvent::EscrowCancelled { payer: payer.clone(), amount }
}

/// Emitted when the payer reclaims the funds after the deadline.
pub fn escrow_expired(payer: &Address, amount: i128) -> (res: EscrowEvent)
    ensures
        res == (EscrowEvent::EscrowExpired { payer: *payer, amount }),
{
    EscrowEvent::EscrowExpired { payer: payer.clone(), amount }
}

} // verus!
