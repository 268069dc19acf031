//! The escrow contract: a payer locks funds for a freelancer, who submits
//! work; the payer then approves (funds go to the freelancer), cancels before
//! submission, or reclaims the funds once the deadline has passed.
//!
//! Each operation returns, besides its new state, the effects that the
//! ledger must carry out for it: whose authorization it needs, the token
//! payment it makes, and the event it emits.

pub mod events;
pub mod storage;

use crate::address::Address;
use crate::escrow::events::{
    escrow_cancelled, escrow_created, escrow_expired, payment_released, work_submitted, EscrowEvent,
};
use crate::escrow::storage::{has_escrow, load_escrow, save_escrow, EscrowData, EscrowStatus, Storage};
use vstd::prelude::*;

verus! {

/// Why an escrow operation was refused.
#[derive(Clone, Copy, Debug, PartialEq, Eq, Structural)]
pub enum EscrowError {
    /// `create` was called on a contract that already holds an escrow.
    AlreadyExists,
    /// The amount to lock is zero or negative.
    InvalidAmount,
    /// The escrow is no longer waiting for work.
    NotActive,
    /// `approve` was called before the freelancer submitted work.
    WorkNotSubmitted,
    /// `expire` was called on an escrow without a deadline.
    NotExpired,
    /// `expire` was called at or before the deadline.
    DeadlineNotPassed,
}

/// One end of a token payment.
#[derive(Debug)]
pub enum Account {
    /// The escrow contract's own account, which holds the locked funds.
    Escrow,
    /// Another account.
    Party(Address),
}

/// A transfer of `amount` units of the `token` contract.
#[derive(Debug)]
pub struct Payment {
    pub token: Address,
    pub from: Account,
    pub to: Account,
    pub amount: i128,
}

/// What the ledger must do for an accepted operation: obtain the authorization
/// of `authorizer`, make the payment if there is one, and publish the event.
#[derive(Debug)]
pub struct Effects {
    pub authorizer: Address,
    pub payment: Option<Payment>,
    pub event: EscrowEvent,
}

/// Outcome of `create` on the stored record: the new record and the effects, or the error.
pub open spec fn create_outcome(
    stored: Option<EscrowData>,
    payer: Address,
    freelancer: Address,
    token: Address,
    amount: i128,
    milestone: String,
    deadline: Option<u64>,
) -> Result<(EscrowData, Effects), EscrowError> {
    if stored is Some {
        Err(EscrowError::AlreadyExists)
    } else if amount <= 0 {
        Err(EscrowError::InvalidAmount)
    } else {
        Ok(
            (
                EscrowData {
                    payer,
                    freelancer,
                    token,
                    amount,
                    milestone,
                    status: EscrowStatus::Active,
                    deadline,
                },
                Effects {
                    authorizer: payer,
                    payment: Some(
                        Payment { token, from: Account::Party(payer), to: Account::Escrow, amount },
                    ),
                    event: EscrowEvent::EscrowCreated { payer, freelancer, amount, milestone },
                },
            ),
        )
    }
}

/// Outcome of `submit_work` on the stored record.
pub open spec fn submit_work_outcome(data: EscrowData) -> Result<(EscrowData, Effects), EscrowError> {
    if data.status != EscrowStatus::Active {
        Err(EscrowError::NotActive)
    } else {
        Ok(
            (
                EscrowData { status: EscrowStatus::WorkSubmitted, ..data },
                Effects {
                    authorizer: data.freelancer,
                    payment: None,
                    event: EscrowEvent::WorkSubmitted { freelancer: data.freelancer },
                },
            ),
        )
    }
}

/// Outcome of `approve` on the stored record.
pub open spec fn approve_outcome(data: EscrowData) -> Result<(EscrowData, Effects), EscrowError> {
    if data.status != EscrowStatus::WorkSubmitted {
        Err(EscrowError::WorkNotSubmitted)
    } else {
        Ok(
            (
                EscrowData { status: EscrowStatus::Completed, ..data },
                Effects {
                    authorizer: data.payer,
                    payment: Some(
                        Payment {
                            token: data.token,
                            from: Account::Escrow,
                            to: Account::Party(data.freelancer),
                            amount: data.amount,
                        },
                    ),
                    event: EscrowEvent::PaymentReleased {
                        freelancer: data.freelancer,
                        amount: data.amount,
                    },
                },
            ),
        )
    }
}

/// Outcome of `cancel` on the stored record.
pub open spec fn cancel_outcome(data: EscrowData) -> Result<(EscrowData, Effects), EscrowError> {
    if data.status != EscrowStatus::Active {
        Err(EscrowError::NotActive)
    } else {
        Ok(
            (
                EscrowData { status: EscrowStatus::Cancelled, ..data },
                Effects {
                    authorizer: data.payer,
                    payment: Some(
                        Payment {
                            token: data.token,
                            from: Account::Escrow,
                            to: Account::Party(data.payer),
                            amount: data.amount,
                        },
                    ),
                    event: EscrowEvent::EscrowCancelled { payer: data.payer, amount: data.amount },
                },
            ),
        )
    }
}

/// Outcome of `expire` at ledger time `now` on the stored record.
pub open spec fn expire_outcome(data: EscrowData, now: u64) -> Result<(EscrowData, Effects), EscrowError> {
    if data.status != EscrowStatus::Active {
        Err(EscrowError::NotActive)
    } else if data.deadline is None {
        Err(EscrowError::NotExpired)
    } else if now <= data.deadline.unwrap() {
        Err(EscrowError::DeadlineNotPassed)
    } else {
        Ok(
            (
                EscrowData { status: EscrowStatus::Expired, ..data },
                Effects {
                    authorizer: data.payer,
                    payment: Some(
                        Payment {
                            token: data.token,
                            from: Account::Escrow,
                            to: Account::Party(data.payer),
                            amount: data.amount,
                        },
                    ),
                    event: EscrowEvent::EscrowExpired { payer: data.payer, amount: data.amount },
                },
            ),
        )
    }
}

/// An operation's result and new stored record are those its outcome gives:
/// on success the new record is stored, on refusal nothing changes.
pub open spec fn follows(
    outcome: Result<(EscrowData, Effects), EscrowError>,
    before: Option<EscrowData>,
    after: Option<EscrowData>,
    res: Result<Effects, EscrowError>,
) -> bool {
    match outcome {
        Ok((data, effects)) => after == Some(data) && res == Ok::<Effects, EscrowError>(effects),
        Err(err) => after == before && res == Err::<Effects, EscrowError>(err),
    }
}

/// Funds that the escrow account holds for the stored record: the amount,
/// while the escrow is active or awaiting approval; nothing otherwise.
pub open spec fn locked(stored: Option<EscrowData>) -> int {
    match stored {
        Some(data) => if data.status == EscrowStatus::Active || data.status
            == EscrowStatus::WorkSubmitted {
            data.amount as int
        } else {
            0
        },
        None => 0,
    }
}

/// How much the effects add to the escrow account's balance (negative when they pay out).
pub open spec fn escrow_inflow(effects: Effects) -> int {
    match effects.payment {
        Some(payment) => if payment.to is Escrow {
            payment.amount as int
        } else if payment.from is Escrow {
            -payment.amount
        } else {
            0
        },
        None => 0,
    }
}

/// The statuses an operation may move an escrow between.
pub open spec fn may_follow(from: EscrowStatus, to: EscrowStatus) -> bool {
    ||| from == EscrowStatus::Active && to == EscrowStatus::WorkSubmitted
    ||| from == EscrowStatus::WorkSubmitted && to == EscrowStatus::Completed
    ||| from == EscrowStatus::Active && to == EscrowStatus::Cancelled
    ||| from == EscrowStatus::Active && to == EscrowStatus::Expired
}

/// A completed, cancelled or expired escrow.
pub open spec fn is_settled(status: EscrowStatus) -> bool {
    status == EscrowStatus::Completed || status == EscrowStatus::Cancelled || status
        == EscrowStatus::Expired
}

/// The parties, token, amount, milestone and deadline of `after` are those of `before`.
pub open spec fn same_terms(before: EscrowData, after: EscrowData) -> bool {
    &&& after.payer == before.payer
    &&& after.freelancer == before.freelancer
    &&& after.token == before.token
    &&& after.amount == before.amount
    &&& after.milestone == before.milestone
    &&& after.deadline == before.deadline
}

/// Funds are conserved: every accepted operation changes what the escrow
/// account holds for the record by exactly the payment it makes. Creating
/// locks the amount, and approving, cancelling or expiring pays it all out.
pub proof fn lemma_funds_conserved(
    data: EscrowData,
    payer: Address,
    freelancer: Address,
    token: Address,
    amount: i128,
    milestone: String,
    deadline: Option<u64>,
    now: u64,
)
    ensures
        create_outcome(None, payer, freelancer, token, amount, milestone, deadline) matches Ok(
            (created, effects),
        ) ==> locked(Some(created)) == locked(None) + escrow_inflow(effects) && locked(
            Some(created),
        ) == amount,
        submit_work_outcome(data) matches Ok((next, effects)) ==> locked(Some(next)) == locked(
            Some(data),
        ) + escrow_inflow(effects),
        approve_outcome(data) matches Ok((next, effects)) ==> locked(Some(next)) == locked(
            Some(data),
        ) + escrow_inflow(effects) && locked(Some(next)) == 0,
        cancel_outcome(data) matches Ok((next, effects)) ==> locked(Some(next)) == locked(
            Some(data),
        ) + escrow_inflow(effects) && locked(Some(next)) == 0,
        expire_outcome(data, now) matches Ok((next, effects)) ==> locked(Some(next)) == locked(
            Some(data),
        ) + escrow_inflow(effects) && locked(Some(next)) == 0,
{
}

/// A settled escrow is final: every further operation is refused.
pub proof fn lemma_settled_is_final(data: EscrowData, now: u64)
    requires
        is_settled(data.status),
    ensures
        submit_work_outcome(data) is Err,
        approve_outcome(data) is Err,
        cancel_outcome(data) is Err,
        expire_outcome(data, now) is Err,
{
}

/// Statuses only move forward (active, then submitted, then completed; or
/// active, then cancelled or expired), and no operation changes the terms
/// of the escrow.
pub proof fn lemma_lifecycle(data: EscrowData, now: u64)
    ensures
        submit_work_outcome(data) matches Ok((next, _)) ==> may_follow(data.status, next.status)
            && same_terms(data, next),
        approve_outcome(data) matches Ok((next, _)) ==> may_follow(data.status, next.status)
            && same_terms(data, next),
        cancel_outcome(data) matches Ok((next, _)) ==> may_follow(data.status, next.status)
            && same_terms(data, next),
        expire_outcome(data, now) matches Ok((next, _)) ==> may_follow(data.status, next.status)
            && same_terms(data, next),
{
}

/// Only the payer can move funds out of the escrow, and only the freelancer
/// can submit work; the funds reach the freelancer only through an approval
/// of submitted work, and return to the payer only while the escrow is active.
pub proof fn lemma_authorization(data: EscrowData, now: u64)
    ensures
        submit_work_outcome(data) matches Ok((_, effects)) ==> effects.authorizer
            == data.freelancer && effects.payment is None,
        approve_outcome(data) matches Ok((_, effects)) ==> effects.authorizer == data.payer
            && data.status == EscrowStatus::WorkSubmitted && effects.payment == Some(
            Payment {
                token: data.token,
                from: Account::Escrow,
                to: Account::Party(data.freelancer),
                amount: data.amount,
            },
        ),
        cancel_outcome(data) matches Ok((_, effects)) ==> effects.authorizer == data.payer
            && data.status == EscrowStatus::Active && effects.payment == Some(
            Payment {
                token: data.token,
                from: Account::Escrow,
                to: Account::Party(data.payer),
                amount: data.amount,
            },
        ),
        expire_outcome(data, now) matches Ok((_, effects)) ==> effects.authorizer == data.payer
            && data.status == EscrowStatus::Active && effects.payment == Some(
            Payment {
                token: data.token,
                from: Account::Escrow,
                to: Account::Party(data.payer),
                amount: data.amount,
            },
        ),
{
}

/// Each accepted operation records its own status: submitting marks the work
/// submitted, approving completes the escrow, cancelling cancels it, expiring
/// expires it. Cancelling an active escrow always succeeds and refunds the
/// payer, whatever its deadline.
pub proof fn lemma_operations_set_their_status(data: EscrowData, now: u64)
    ensures
        submit_work_outcome(data) matches Ok((next, _)) ==> next.status
            == EscrowStatus::WorkSubmitted,
        approve_outcome(data) matches Ok((next, _)) ==> next.status == EscrowStatus::Completed,
        cancel_outcome(data) matches Ok((next, _)) ==> next.status == EscrowStatus::Cancelled,
        expire_outcome(data, now) matches Ok((next, _)) ==> next.status == EscrowStatus::Expired,
        data.status == EscrowStatus::Active ==> (cancel_outcome(data) matches Ok((next, effects))
            && next.status == EscrowStatus::Cancelled && effects.payment == Some(
            Payment {
                token: data.token,
                from: Account::Escrow,
                to: Account::Party(data.payer),
                amount: data.amount,
            },
        )),
        data.status == EscrowStatus::WorkSubmitted ==> (approve_outcome(data) matches Ok((next, _))
            && next.status == EscrowStatus::Completed),
        data.status == EscrowStatus::Active ==> (submit_work_outcome(data) matches Ok((next, _))
            && next.status == EscrowStatus::WorkSubmitted),
{
}

/// On a contract without an escrow, `create` succeeds exactly for a positive
/// amount, whatever its size: it stores an active escrow of that amount with
/// the given parties, token, milestone and deadline, and moves that amount
/// from the payer to the escrow on the payer's authorization.
pub proof fn lemma_create_accepts_every_positive_amount(
    payer: Address,
    freelancer: Address,
    token: Address,
    amount: i128,
    milestone: String,
    deadline: Option<u64>,
)
    ensures
        create_outcome(None, payer, freelancer, token, amount, milestone, deadline) is Ok <==> amount
            > 0,
        amount <= 0 ==> create_outcome(None, payer, freelancer, token, amount, milestone, deadline)
            == Err::<(EscrowData, Effects), EscrowError>(EscrowError::InvalidAmount),
        amount > 0 ==> (create_outcome(None, payer, freelancer, token, amount, milestone, deadline)
            matches Ok((created, effects)) && created.amount == amount && created.status
            == EscrowStatus::Active && created.payer == payer && created.freelancer == freelancer
            && created.token == token && created.milestone == milestone && created.deadline
            == deadline && effects.authorizer == payer && effects.payment == Some(
            Payment { token, from: Account::Party(payer), to: Account::Escrow, amount },
        )),
{
}

/// An escrow cannot be created twice: once one is stored, `create` is refused
/// whatever its arguments, and the stored escrow is kept.
pub proof fn lemma_single_escrow(
    payer: Address,
    freelancer: Address,
    token: Address,
    amount: i128,
    milestone: String,
    deadline: Option<u64>,
    payer2: Address,
    freelancer2: Address,
    token2: Address,
    amount2: i128,
    milestone2: String,
    deadline2: Option<u64>,
)
    ensures
        create_outcome(None, payer, freelancer, token, amount, milestone, deadline) matches Ok(
            (created, _),
        ) ==> create_outcome(
            Some(created),
            payer2,
            freelancer2,
            token2,
            amount2,
            milestone2,
            deadline2,
        ) == Err::<(EscrowData, Effects), EscrowError>(EscrowError::AlreadyExists),
{
}

/// Once work is submitted the payer can neither cancel nor reclaim the funds:
/// only approval remains.
pub proof fn lemma_no_refund_after_submission(data: EscrowData, now: u64)
    ensures
        submit_work_outcome(data) matches Ok((submitted, _)) ==> cancel_outcome(submitted)
            == Err::<(EscrowData, Effects), EscrowError>(EscrowError::NotActive) && expire_outcome(
            submitted,
            now,
        ) == Err::<(EscrowData, Effects), EscrowError>(EscrowError::NotActive) && approve_outcome(
            submitted,
        ) is Ok,
{
}

/// Funds are reclaimed through `expire` only when a deadline was set and the
/// ledger time is past it.
pub proof fn lemma_expiry_needs_passed_deadline(data: EscrowData, now: u64)
    ensures
        expire_outcome(data, now) is Ok <==> (data.status == EscrowStatus::Active
            && data.deadline is Some && now > data.deadline.unwrap()),
{
}

/// The contract, with its instance storage.
#[derive(Debug)]
pub struct EscrowContract {
    storage: Storage,
}

impl EscrowContract {
    /// The escrow record in storage, if any.
    pub closed spec fn record(&self) -> Option<EscrowData> {
        self.storage.escrow
    }

    /// Every stored escrow locks a positive amount.
    pub open spec fn wf(&self) -> bool {
        self.record() matches Some(data) ==> data.amount > 0
    }

    /// A freshly deployed contract, holding no escrow.
    pub fn new() -> (res: EscrowContract)
        ensures
            res.record() is None,
            res.wf(),
    {
        EscrowContract { storage: Storage { escrow: None } }
    }

    /// The contract whose storage holds `record`.
    pub fn from_record(record: Option<EscrowData>) -> (res: EscrowContract)
        requires
            record matches Some(data) ==> data.amount > 0,
        ensures
            res.record() == record,
            res.wf(),
    {
        EscrowContract { storage: Storage { escrow: record } }
    }

    /// Create escrow: payer locks `amount` of `token` for `freelancer`.
    /// Optional `deadline` is a ledger timestamp after which payer can reclaim funds.
    pub fn create(
        &mut self,
        payer: Address,
        freelancer: Address,
        token: Address,
        amount: i128,
        milestone: String,
        deadline: Option<u64>,
    ) -> (res: Result<Effects, EscrowError>)
        requires
            old(self).wf(),
        ensures
            follows(
                create_outcome(old(self).record(), payer, freelancer, token, amount, milestone, deadline),
                old(self).record(),
                final(self).record(),
                res,
            ),
            final(self).wf(),
    {
        if has_escrow(&self.storage) {
            return Err(EscrowError::AlreadyExists);
        }
        if amount <= 0 {
            return Err(EscrowError::InvalidAmount);
        }
        let effects = Effects {
            authorizer: payer.clone(),
            payment: Some(
                Payment {
                    token: token.clone(),
                    from: Account::Party(payer.clone()),
                    to: Account::Escrow,
                    amount,
                },
            ),
            event: escrow_created(&payer, &freelancer, amount, &milestone),
        };
        let data = EscrowData {
            payer,
            freelancer,
            token,
            amount,
            milestone,
            status: EscrowStatus::Active,
            deadline,
        };
        save_escrow(&mut self.storage, data);
        Ok(effects)
    }

    /// Freelancer marks work as submitted.
    pub fn submit_work(&mut self) -> (res: Result<Effects, EscrowError>)
        requires
            old(self).wf(),
            old(self).record() is Some,
        ensures
            follows(
                submit_work_outcome(old(self).record().unwrap()),
                old(self).record(),
                final(self).record(),
                res,
            ),
            final(self).wf(),
    {
        let mut data = load_escrow(&self.storage);
        if data.status != EscrowStatus::Active {
            return Err(EscrowError::NotActive);
        }
        data.status = EscrowStatus::WorkSubmitted;
        let effects = Effects {
            authorizer: data.freelancer.clone(),
            payment: None,
            event: work_submitted(&data.freelancer),
        };
        save_escrow(&mut self.storage, data);
        Ok(effects)
    }

    /// Payer approves the milestone — releases the funds to the freelancer.
    pub fn approve(&mut self) -> (res: Result<Effects, EscrowError>)
        requires
            old(self).wf(),
            old(self).record() is Some,
        ensures
            follows(
                approve_outcome(old(self).record().unwrap()),
                old(self).record(),
                final(self).record(),
                res,
            ),
            final(self).wf(),
    {
        let mut data = load_escrow(&self.storage);
        if data.status != EscrowStatus::WorkSubmitted {
            return Err(EscrowError::WorkNotSubmitted);
        }
        let effects = Effects {
            authorizer: data.payer.clone(),
            payment: Some(
                Payment {
                    token: data.token.clone(),
                    from: Account::Escrow,
                    to: Account::Party(data.freelancer.clone()),
                    amount: data.amount,
                },
            ),
            event: payment_released(&data.freelancer, data.amount),
        };
        data.status = EscrowStatus::Completed;
        save_escrow(&mut self.storage, data);
        Ok(effects)
    }

    /// Payer cancels the escrow — refunds the locked funds. Only allowed before
    /// work is submitted.
    pub fn cancel(&mut self) -> (res: Result<Effects, EscrowError>)
        requires
            old(self).wf(),
            old(self).record() is Some,
        ensures
            follows(
                cancel_outcome(old(self).record().unwrap()),
                old(self).record(),
                final(self).record(),
                res,
            ),
            final(self).wf(),
    {
        let mut data = load_escrow(&self.storage);
        if data.status != EscrowStatus::Active {
            return Err(EscrowError::NotActive);
        }
        let effects = Effects {
            authorizer: data.payer.clone(),
            payment: Some(
                Payment {
                    token: data.token.clone(),
                    from: Account::Escrow,
                    to: Account::Party(data.payer.clone()),
                    amount: data.amount,
                },
            ),
            event: escrow_cancelled(&data.payer, data.amount),
        };
        data.status = EscrowStatus::Cancelled;
        save_escrow(&mut self.storage, data);
        Ok(effects)
    }

    /// Payer reclaims the funds after the deadline has passed, at ledger time `now`.
    /// Only valid when the escrow is still active (the freelancer never submitted).
    pub fn expire(&mut self, now: u64) -> (res: Result<Effects, EscrowError>)
        requires
            old(self).wf(),
            old(self).record() is Some,
        ensures
            follows(
                expire_outcome(old(self).record().unwrap(), now),
                old(self).record(),
                final(self).record(),
                res,
            ),
            final(self).wf(),
    {
        let mut data = load_escrow(&self.storage);
        if data.status != EscrowStatus::Active {
            return Err(EscrowError::NotActive);
        }
        let deadline = match data.deadline {
            Some(d) => d,
            None => return Err(EscrowError::NotExpired),
        };
        if now <= deadline {
            return Err(EscrowError::DeadlineNotPassed);
        }
        let effects = Effects {
            authorizer: data.payer.clone(),
            payment: Some(
                Payment {
                    token: data.token.clone(),
                    from: Account::Escrow,
                    to: Account::Party(data.payer.clone()),
                    amount: data.amount,
                },
            ),
            event: escrow_expired(&data.payer, data.amount),
        };
        data.status = EscrowStatus::Expired;
        save_escrow(&mut self.storage, data);
        Ok(effects)
    }

    /// Returns the current status without the full record.
    pub fn get_status(&self) -> (res: EscrowStatus)
        requires
            self.record() is Some,
        ensures
            res == self.record().unwrap().status,
    {
        load_escrow(&self.storage).status
    }

    /// Reads the full escrow record.
    pub fn get_escrow(&self) -> (res: EscrowData)
        requires
            self.record() is Some,
        ensures
            res == self.record().unwrap(),
    {
        load_escrow(&self.storage)
    }
}

} // verus!
