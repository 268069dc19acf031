//! Properties of the governance contract that span its operations.

use crate::address::Address;
use crate::governance::{
    counter, propose_call_outcome, execute_outcome, finalize_outcome, Proposal,
    carried, execute_step, finalize_step, has_voted, init_step, propose_step, timing_fits, valid,
    vote_fits, vote_is, vote_step, GovError, GovernanceConfig, GovernanceState, ParamChange, ProposalStatus,
};
use vstd::prelude::*;

verus! {

/// The statuses a proposal may move between in one operation (or stay at).
pub open spec fn status_may_follow(from: ProposalStatus, to: ProposalStatus) -> bool {
    ||| from == to
    ||| from == ProposalStatus::Active && to == ProposalStatus::Passed
    ||| from == ProposalStatus::Active && to == ProposalStatus::Rejected
    ||| from == ProposalStatus::Passed && to == ProposalStatus::Executed
}

/// `after` keeps the configuration of `before`, and every proposal of `before`
/// is still there with the same number, proposer, changes and times, its
/// status having moved only forward.
pub open spec fn moves_forward(before: GovernanceState, after: GovernanceState) -> bool {
    &&& before.config is Some ==> after.config == before.config
    &&& before.proposals.len() <= after.proposals.len()
    &&& forall|i: int|
        0 <= i < before.proposals.len() ==> {
            &&& (#[trigger] after.proposals[i]).id == before.proposals[i].id
            &&& after.proposals[i].proposer == before.proposals[i].proposer
            &&& after.proposals[i].changes == before.proposals[i].changes
            &&& after.proposals[i].voting_end == before.proposals[i].voting_end
            &&& after.proposals[i].execution_eta == before.proposals[i].execution_eta
            &&& status_may_follow(before.proposals[i].status, after.proposals[i].status)
        }
}

/// Every operation keeps the storage valid, keeps the configuration once set,
/// never alters a proposal's terms, and moves statuses only forward: from
/// active to passed or rejected, and from passed to executed.
pub proof fn lemma_operations_move_forward(
    s: GovernanceState,
    config: GovernanceConfig,
    proposer: Address,
    changes: Vec<ParamChange>,
    voter: Address,
    id: u64,
    support: bool,
    weight: i128,
    now: u64,
)
    requires
        valid(s),
        s.proposals.len() < u64::MAX,
        s.config matches Some(c) ==> timing_fits(now, c),
    ensures
        valid(init_step(s, config).0) && moves_forward(s, init_step(s, config).0),
        valid(propose_step(s, proposer, changes, now).0) && moves_forward(
            s,
            propose_step(s, proposer, changes, now).0,
        ),
        valid(vote_step(s, voter, id, support, now, weight).0) && moves_forward(
            s,
            vote_step(s, voter, id, support, now, weight).0,
        ),
        valid(finalize_step(s, id, now).0) && moves_forward(s, finalize_step(s, id, now).0),
        valid(execute_step(s, id, now).0) && moves_forward(s, execute_step(s, id, now).0),
{
    let after = propose_step(s, proposer, changes, now).0;
    if s.config is Some {
        assert forall|i: int| 0 <= i < after.proposals.len() implies (#[trigger] after.proposals[i]).id
            == i by {
            if i < s.proposals.len() {
                assert(after.proposals[i] == s.proposals[i]);
            }
        }
    }
    let voted = vote_step(s, voter, id, support, now, weight).0;
    assert forall|i: int| 0 <= i < voted.proposals.len() implies (#[trigger] voted.proposals[i]).id
        == i by {
        assert(voted.proposals[i].id == s.proposals[i].id);
    }
}

/// The governance is initialised once: after a successful `init`, every
/// further `init` is refused and changes nothing.
pub proof fn lemma_init_once(s: GovernanceState, config: GovernanceConfig, other: GovernanceConfig)
    ensures
        init_step(s, config).1 is Ok ==> init_step(init_step(s, config).0, other) == (
            init_step(s, config).0,
            Err::<(), GovError>(GovError::AlreadyInitialized),
        ),
{
}

/// Proposals are numbered 0, 1, 2, … in the order they are made, and each is
/// stored under its own number.
pub proof fn lemma_proposal_ids_increment(
    s: GovernanceState,
    proposer: Address,
    changes: Vec<ParamChange>,
    now: u64,
    proposer2: Address,
    changes2: Vec<ParamChange>,
    now2: u64,
)
    requires
        valid(s),
        s.config is Some,
    ensures
        propose_step(s, proposer, changes, now).1 == Ok::<u64, GovError>(
            s.proposals.len() as u64,
        ),
        s.proposals.len() + 1 < u64::MAX ==> propose_step(
            propose_step(s, proposer, changes, now).0,
            proposer2,
            changes2,
            now2,
        ).1 == Ok::<u64, GovError>((s.proposals.len() + 1) as u64),
        s.proposals.len() < u64::MAX ==> propose_step(s, proposer, changes, now).0.proposals[s.proposals.len() as int].id
            == s.proposals.len(),
{
}

/// A voter is counted at most once per proposal: after a successful vote,
/// any further vote by the same address on the same proposal is refused and
/// changes nothing — with `AlreadyVoted` while voting is still open.
pub proof fn lemma_one_vote_per_voter(
    s: GovernanceState,
    voter: Address,
    id: u64,
    support: bool,
    now: u64,
    weight: i128,
    again: Address,
    support2: bool,
    now2: u64,
    weight2: i128,
)
    requires
        again.strkey@ == voter.strkey@,
    ensures
        ({
            let (s1, r1) = vote_step(s, voter, id, support, now, weight);
            r1 is Ok ==> {
                &&& vote_step(s1, again, id, support2, now2, weight2).1 is Err
                &&& vote_step(s1, again, id, support2, now2, weight2).0 == s1
                &&& now2 <= s.proposals[id as int].voting_end ==> vote_step(
                    s1,
                    again,
                    id,
                    support2,
                    now2,
                    weight2,
                ).1 == Err::<(), GovError>(GovError::AlreadyVoted)
            }
        }),
{
    let (s1, r1) = vote_step(s, voter, id, support, now, weight);
    if r1 is Ok {
        let last = s1.votes.len() - 1;
        assert(vote_is(s1.votes[last], id, again.strkey@));
        assert(has_voted(s1.votes, id, again.strkey@));
    }
}

/// A vote is accepted only on an active proposal, within its voting period,
/// from an address that has not voted on it; it adds exactly the voter's
/// weight to the tally it supports and changes nothing else.
pub proof fn lemma_vote_counts_weight(
    s: GovernanceState,
    voter: Address,
    id: u64,
    support: bool,
    now: u64,
    weight: i128,
)
    requires
        valid(s),
        vote_fits(s, voter, id, support, now, weight),
    ensures
        ({
            let (s1, r1) = vote_step(s, voter, id, support, now, weight);
            r1 is Ok ==> {
                let before = s.proposals[id as int];
                let after = s1.proposals[id as int];
                &&& s.config is Some && id < s.proposals.len()
                &&& before.status == ProposalStatus::Active
                &&& now <= before.voting_end
                &&& !has_voted(s.votes, id, voter.strkey@)
                &&& has_voted(s1.votes, id, voter.strkey@)
                &&& support ==> after.votes_for == before.votes_for + weight
                    && after.votes_against == before.votes_against
                &&& !support ==> after.votes_against == before.votes_against + weight
                    && after.votes_for == before.votes_for
                &&& s1.config == s.config
                &&& s1.proposals.len() == s.proposals.len()
                &&& forall|j: int|
                    0 <= j < s.proposals.len() && j != id ==> #[trigger] s1.proposals[j]
                        == s.proposals[j]
            }
        }),
{
    let (s1, r1) = vote_step(s, voter, id, support, now, weight);
    if r1 is Ok {
        let last = s1.votes.len() - 1;
        assert(vote_is(s1.votes[last], id, voter.strkey@));
    }
}

/// Finalising decides a proposal only after its voting period: it passes
/// exactly when the votes for it reach the quorum and outnumber the votes
/// against it, and is rejected otherwise. Finalising again reports the same
/// status and changes nothing, and no vote is accepted any more.
pub proof fn lemma_finalize_decides_once(
    s: GovernanceState,
    id: u64,
    now: u64,
    now2: u64,
    voter: Address,
    support: bool,
    weight: i128,
)
    requires
        valid(s),
    ensures
        ({
            let (s1, r1) = finalize_step(s, id, now);
            r1 is Ok ==> {
                let before = s.proposals[id as int];
                &&& before.status == ProposalStatus::Active ==> {
                    &&& now > before.voting_end
                    &&& r1 == Ok::<ProposalStatus, GovError>(
                        if carried(before, s.config.unwrap().quorum) {
                            ProposalStatus::Passed
                        } else {
                            ProposalStatus::Rejected
                        },
                    )
                }
                &&& finalize_step(s1, id, now2) == (s1, r1)
                &&& vote_step(s1, voter, id, support, now2, weight) == (
                    s1,
                    Err::<(), GovError>(GovError::VotingClosed),
                )
            }
        }),
{
    let (s1, r1) = finalize_step(s, id, now);
    if r1 is Ok {
        assert(s1.proposals.update(id as int, s1.proposals[id as int]) =~= s1.proposals);
    }
}

/// Voting and finalising never overlap: up to and including the voting end a
/// vote is accepted and finalising is refused; from the next second on, the
/// vote is refused and finalising succeeds.
pub proof fn lemma_vote_finalize_boundary(
    s: GovernanceState,
    voter: Address,
    id: u64,
    support: bool,
    weight: i128,
    now: u64,
)
    requires
        valid(s),
        s.config is Some,
        id < s.proposals.len(),
        s.proposals[id as int].status == ProposalStatus::Active,
        !has_voted(s.votes, id, voter.strkey@),
        s.proposals[id as int].voting_end < u64::MAX,
    ensures
        ({
            let end = s.proposals[id as int].voting_end;
            &&& vote_step(s, voter, id, support, end, weight).1 is Ok
            &&& finalize_step(s, id, end).1 == Err::<ProposalStatus, GovError>(
                GovError::VotingStillOpen,
            )
            &&& vote_step(s, voter, id, support, (end + 1) as u64, weight).1 == Err::<(), GovError>(
                GovError::VotingClosed,
            )
            &&& finalize_step(s, id, (end + 1) as u64).1 is Ok
            &&& vote_step(s, voter, id, support, now, weight).1 is Ok ==> finalize_step(
                s,
                id,
                now,
            ).1 is Err
        }),
{
}

/// A new proposal, made at time `now` under a stored configuration, gets the
/// stored counter as its number (0 when unset) and leaves the counter one
/// higher; it starts active with no votes, its voting ends one voting period
/// after `now`, and it becomes executable one timelock delay after that.
pub proof fn lemma_new_proposal_terms(
    config: GovernanceConfig,
    next_id: Option<u64>,
    proposer: Address,
    changes: Vec<ParamChange>,
    now: u64,
)
    requires
        timing_fits(now, config),
        counter(next_id) < u64::MAX,
    ensures
        propose_call_outcome(Some(config), next_id, proposer, changes, now) matches Ok(
            (proposal, next),
        ) && proposal.id == (match next_id {
            Some(n) => n,
            None => 0u64,
        }) && next == proposal.id + 1 && proposal.proposer == proposer && proposal.changes
            == changes && proposal.votes_for == 0 && proposal.votes_against == 0
            && proposal.status == ProposalStatus::Active && proposal.voting_end == now
            + config.voting_period && proposal.execution_eta == now + config.voting_period
            + config.timelock_delay,
        propose_call_outcome(None, next_id, proposer, changes, now) == Err::<(Proposal, u64), GovError>(
            GovError::NotInitialized,
        ),
{
}

/// Finalising an active proposal after its voting end decides it by the
/// tallies: it passes exactly when the votes for it reach the quorum and
/// outnumber the votes against it; with fewer votes for it than the quorum it
/// is rejected, however few votes are against it.
pub proof fn lemma_finalize_by_quorum_and_majority(
    proposal: Proposal,
    config: GovernanceConfig,
    now: u64,
)
    requires
        proposal.status == ProposalStatus::Active,
        now > proposal.voting_end,
    ensures
        finalize_outcome(proposal, Some(config), now) matches Ok((after, status)) && after.status
            == status && (status == ProposalStatus::Passed <==> (proposal.votes_for
            >= config.quorum && proposal.votes_for > proposal.votes_against)) && (status
            == ProposalStatus::Passed || status == ProposalStatus::Rejected),
        proposal.votes_for < config.quorum ==> (finalize_outcome(proposal, Some(config), now)
            matches Ok((_, status)) && status == ProposalStatus::Rejected),
        proposal.votes_for <= proposal.votes_against ==> (finalize_outcome(
            proposal,
            Some(config),
            now,
        ) matches Ok((_, status)) && status == ProposalStatus::Rejected),
{
}

/// With a configuration stored, a passed proposal is executed at every time
/// from its execution time on, however late, against the configured escrow
/// contract; and execution succeeds only for a passed proposal whose execution
/// time has come.
pub proof fn lemma_execute_whenever_timelock_elapsed(
    proposal: Proposal,
    config: GovernanceConfig,
    now: u64,
)
    ensures
        proposal.status == ProposalStatus::Passed && now >= proposal.execution_eta ==> (
        execute_outcome(proposal, Some(config), now) matches Ok((after, target)) && after.status
            == ProposalStatus::Executed && target == config.escrow_contract && after.votes_for
            == proposal.votes_for && after.votes_against == proposal.votes_against),
        execute_outcome(proposal, Some(config), now) is Ok ==> proposal.status
            == ProposalStatus::Passed && now >= proposal.execution_eta,
{
}

/// Only a passed proposal is executed, only once its timelock has elapsed
/// (the voting end plus the configured delay), against the configured escrow
/// contract, and only once.
pub proof fn lemma_execute_after_timelock_once(s: GovernanceState, id: u64, now: u64, now2: u64)
    requires
        valid(s),
    ensures
        ({
            let (s1, r1) = execute_step(s, id, now);
            r1 is Ok ==> {
                let before = s.proposals[id as int];
                &&& before.status == ProposalStatus::Passed
                &&& now >= before.voting_end + s.config.unwrap().timelock_delay
                &&& r1 == Ok::<Address, GovError>(s.config.unwrap().escrow_contract)
                &&& s1.proposals[id as int].status == ProposalStatus::Executed
                &&& execute_step(s1, id, now2) == (s1, Err::<Address, GovError>(GovError::AlreadyExecuted))
            }
        }),
{
}

} // verus!
