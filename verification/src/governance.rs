//! The governance contract: token holders propose parameter changes for the
//! escrow contract, vote on them with their token balance, and, once a
//! proposal has passed and its timelock has elapsed, have it executed.
//!
//! The functions on a single proposal (`new_proposal`, `check_vote`, `tally`,
//! `finalize_proposal`, `execute_proposal`) carry the rules; the
//! `GovernanceContract` type applies them to the whole contract storage.

pub mod laws;

use crate::address::Address;
use vstd::prelude::*;

verus! {

// ── Storage keys ─────────────────────────────────────────────────────────────

/// Keys of the contract's instance storage.
#[derive(Clone, Copy, Debug, PartialEq, Eq, Structural)]
pub enum DataKey {
    Config,
    Proposal(u64),
    NextId,
}

/// Key marking that a voter has voted on a proposal.
#[derive(Debug)]
pub enum VoteKey {
    Vote(u64, Address),
}

// ── Types ─────────────────────────────────────────────────────────────────────

/// A single parameter change that a proposal can enact.
#[derive(Debug)]
pub struct ParamChange {
    /// "fee_bps" | "fee_collector" | "add_token" | "remove_token"
    pub key: String,
    /// Encoded as a string (e.g. "100" for fee_bps, address string for others)
    pub value: String,
}

impl Clone for ParamChange {
    fn clone(&self) -> (res: Self)
        ensures
            res == *self,
    {
        ParamChange { key: self.key.clone(), value: self.value.clone() }
    }
}

/// Where a proposal stands.
#[derive(Clone, Copy, Debug, PartialEq, Eq, Structural)]
pub enum ProposalStatus {
    Active,
    Passed,
    Rejected,
    Executed,
}

/// A proposal and its tallies.
#[derive(Debug)]
pub struct Proposal {
    pub id: u64,
    pub proposer: Address,
    pub changes: Vec<ParamChange>,
    pub votes_for: i128,
    pub votes_against: i128,
    pub voting_end: u64,
    /// Earliest timestamp at which the proposal may be executed (timelock).
    pub execution_eta: u64,
    pub status: ProposalStatus,
}

/// Two proposals agree in every field (the changes by their contents).
pub open spec fn same_proposal(a: Proposal, b: Proposal) -> bool {
    &&& a.id == b.id
    &&& a.proposer == b.proposer
    &&& a.changes@ == b.changes@
    &&& a.votes_for == b.votes_for
    &&& a.votes_against == b.votes_against
    &&& a.voting_end == b.voting_end
    &&& a.execution_eta == b.execution_eta
    &&& a.status == b.status
}

impl Clone for Proposal {
    fn clone(&self) -> (res: Self)
        ensures
            same_proposal(res, *self),
    {
        let changes = self.changes.clone();
        proof {
            assert forall|i: int| 0 <= i < changes@.len() implies changes@[i] == self.changes@[i] by {
                assert(cloned::<ParamChange>(self.changes[i], changes[i]));
            }
            assert(changes@ =~= self.changes@);
        }
        Proposal {
            id: self.id,
            proposer: self.proposer.clone(),
            changes,
            votes_for: self.votes_for,
            votes_against: self.votes_against,
            voting_end: self.voting_end,
            execution_eta: self.execution_eta,
            status: self.status,
        }
    }
}

/// The governance parameters, set once by `init`.
#[derive(Debug)]
pub struct GovernanceConfig {
    /// SEP-41 token used for voting weight.
    pub vote_token: Address,
    /// Voting period in seconds.
    pub voting_period: u64,
    /// Timelock delay in seconds after voting ends before execution is allowed.
    pub timelock_delay: u64,
    /// Minimum `votes_for` required for a proposal to pass.
    pub quorum: i128,
    /// The escrow contract whose config this governance controls.
    pub escrow_contract: Address,
}

impl Clone for GovernanceConfig {
    fn clone(&self) -> (res: Self)
        ensures
            res == *self,
    {
        GovernanceConfig {
            vote_token: self.vote_token.clone(),
            voting_period: self.voting_period,
            timelock_delay: self.timelock_delay,
            quorum: self.quorum,
            escrow_contract: self.escrow_contract.clone(),
        }
    }
}

// ── Errors ────────────────────────────────────────────────────────────────────

/// Why a governance operation was refused.
#[derive(Clone, Copy, Debug, PartialEq, Eq, Structural)]
pub enum GovError {
    AlreadyInitialized,
    NotInitialized,
    ProposalNotFound,
    VotingClosed,
    VotingStillOpen,
    TimelockNotElapsed,
    AlreadyExecuted,
    NotPassed,
    AlreadyVoted,
}

// ── Rules on a single proposal ───────────────────────────────────────────────

/// Whether the voting end and the execution time of a proposal made at `now` fit in a `u64`.
pub open spec fn timing_fits(now: u64, config: GovernanceConfig) -> bool {
    now + config.voting_period + config.timelock_delay <= u64::MAX
}

/// The proposal `propose` makes at time `now`: no votes yet, voting open for
/// the voting period, executable after the timelock that follows it.
pub open spec fn proposal_for(
    id: u64,
    proposer: Address,
    changes: Vec<ParamChange>,
    now: u64,
    config: GovernanceConfig,
) -> Proposal {
    Proposal {
        id,
        proposer,
        changes,
        votes_for: 0,
        votes_against: 0,
        voting_end: (now + config.voting_period) as u64,
        execution_eta: (now + config.voting_period + config.timelock_delay) as u64,
        status: ProposalStatus::Active,
    }
}

/// Builds the proposal with number `id` that `proposer` submits at time `now`.
pub fn new_proposal(
    id: u64,
    proposer: Address,
    changes: Vec<ParamChange>,
    now: u64,
    config: &GovernanceConfig,
) -> (res: Proposal)
    requires
        timing_fits(now, *config),
    ensures
        res == proposal_for(id, proposer, changes, now, *config),
{
    Proposal {
        id,
        proposer,
        changes,
        votes_for: 0,
        votes_against: 0,
        voting_end: now + config.voting_period,
        execution_eta: now + config.voting_period + config.timelock_delay,
        status: ProposalStatus::Active,
    }
}

/// Whether a vote at time `now` is accepted: the proposal must be active, its
/// voting period not over, and the voter must not have voted on it yet.
pub open spec fn vote_check(proposal: Proposal, now: u64, already_voted: bool) -> Result<(), GovError> {
    if proposal.status != ProposalStatus::Active {
        Err(GovError::VotingClosed)
    } else if now > proposal.voting_end {
        Err(GovError::VotingClosed)
    } else if already_voted {
        Err(GovError::AlreadyVoted)
    } else {
        Ok(())
    }
}

/// Checks whether a vote at time `now` is accepted.
pub fn check_vote(proposal: &Proposal, now: u64, already_voted: bool) -> (res: Result<(), GovError>)
    ensures
        res == vote_check(*proposal, now, already_voted),
{
    if proposal.status != ProposalStatus::Active {
        return Err(GovError::VotingClosed);
    }
    if now > proposal.voting_end {
        return Err(GovError::VotingClosed);
    }
    if already_voted {
        return Err(GovError::AlreadyVoted);
    }
    Ok(())
}

/// Whether adding `weight` to the chosen tally stays within `i128`.
pub open spec fn tally_fits(proposal: Proposal, support: bool, weight: i128) -> bool {
    if support {
        i128::MIN <= proposal.votes_for + weight <= i128::MAX
    } else {
        i128::MIN <= proposal.votes_against + weight <= i128::MAX
    }
}

/// The proposal after a vote of `weight` for (`support`) or against it.
pub open spec fn tallied(proposal: Proposal, support: bool, weight: i128) -> Proposal {
    if support {
        Proposal { votes_for: (proposal.votes_for + weight) as i128, ..proposal }
    } else {
        Proposal { votes_against: (proposal.votes_against + weight) as i128, ..proposal }
    }
}

/// Adds a vote of `weight` to the tally it supports.
pub fn tally(proposal: &mut Proposal, support: bool, weight: i128)
    requires
        tally_fits(*old(proposal), support, weight),
    ensures
        *final(proposal) == tallied(*old(proposal), support, weight),
{
    if support {
        proposal.votes_for = proposal.votes_for + weight;
    } else {
        proposal.votes_against = proposal.votes_against + weight;
    }
}

/// Whether the tallies carry a proposal: the votes for it reach the quorum and
/// outnumber the votes against it.
pub open spec fn carried(proposal: Proposal, quorum: i128) -> bool {
    proposal.votes_for >= quorum && proposal.votes_for > proposal.votes_against
}

/// Outcome of finalizing at time `now`: the proposal afterwards and the status
/// reported, or the error. A proposal that is no longer active is left as it
/// is and its status reported.
pub open spec fn finalize_outcome(
    proposal: Proposal,
    config: Option<GovernanceConfig>,
    now: u64,
) -> Result<(Proposal, ProposalStatus), GovError> {
    if proposal.status != ProposalStatus::Active {
        Ok((proposal, proposal.status))
    } else if now <= proposal.voting_end {
        Err(GovError::VotingStillOpen)
    } else if config is None {
        Err(GovError::NotInitialized)
    } else {
        let status = if carried(proposal, config.unwrap().quorum) {
            ProposalStatus::Passed
        } else {
            ProposalStatus::Rejected
        };
        Ok((Proposal { status, ..proposal }, status))
    }
}

/// Closes the voting of a proposal after its voting period: it passes or is rejected.
pub fn finalize_proposal(
    proposal: &mut Proposal,
    config: &Option<GovernanceConfig>,
    now: u64,
) -> (res: Result<ProposalStatus, GovError>)
    ensures
        match finalize_outcome(*old(proposal), *config, now) {
            Ok((after, status)) => *final(proposal) == after && res == Ok::<
                ProposalStatus,
                GovError,
            >(status),
            Err(err) => *final(proposal) == *old(proposal) && res == Err::<ProposalStatus, GovError>(
                err,
            ),
        },
{
    if proposal.status != ProposalStatus::Active {
        return Ok(proposal.status);
    }
    if now <= proposal.voting_end {
        return Err(GovError::VotingStillOpen);
    }
    let quorum = match config {
        Some(cfg) => cfg.quorum,
        None => return Err(GovError::NotInitialized),
    };
    let status = if proposal.votes_for >= quorum && proposal.votes_for > proposal.votes_against {
        ProposalStatus::Passed
    } else {
        ProposalStatus::Rejected
    };
    proposal.status = status;
    Ok(status)
}

/// Outcome of executing at time `now`: the proposal afterwards and the escrow
/// contract on which `gov_apply` is to be invoked with the proposal's changes,
/// or the error.
pub open spec fn execute_outcome(
    proposal: Proposal,
    config: Option<GovernanceConfig>,
    now: u64,
) -> Result<(Proposal, Address), GovError> {
    if proposal.status == ProposalStatus::Executed {
        Err(GovError::AlreadyExecuted)
    } else if proposal.status != ProposalStatus::Passed {
        Err(GovError::NotPassed)
    } else if now < proposal.execution_eta {
        Err(GovError::TimelockNotElapsed)
    } else if config is None {
        Err(GovError::NotInitialized)
    } else {
        Ok((Proposal { status: ProposalStatus::Executed, ..proposal }, config.unwrap().escrow_contract))
    }
}

/// Executes a passed proposal once its timelock has elapsed. Returns the escrow
/// contract on which `gov_apply` must be invoked with the proposal's changes.
pub fn execute_proposal(
    proposal: &mut Proposal,
    config: &Option<GovernanceConfig>,
    now: u64,
) -> (res: Result<Address, GovError>)
    ensures
        match execute_outcome(*old(proposal), *config, now) {
            Ok((after, target)) => *final(proposal) == after && res == Ok::<Address, GovError>(
                target,
            ),
            Err(err) => *final(proposal) == *old(proposal) && res == Err::<Address, GovError>(err),
        },
{
    if proposal.status == ProposalStatus::Executed {
        return Err(GovError::AlreadyExecuted);
    }
    if proposal.status != ProposalStatus::Passed {
        return Err(GovError::NotPassed);
    }
    if now < proposal.execution_eta {
        return Err(GovError::TimelockNotElapsed);
    }
    let target = match config {
        Some(cfg) => cfg.escrow_contract.clone(),
        None => return Err(GovError::NotInitialized),
    };
    proposal.status = ProposalStatus::Executed;
    Ok(target)
}

/// The configuration read from storage; `NotInitialized` where none is stored.
pub fn load_config(stored: Option<GovernanceConfig>) -> (res: Result<GovernanceConfig, GovError>)
    ensures
        match stored {
            Some(config) => res == Ok::<GovernanceConfig, GovError>(config),
            None => res == Err::<GovernanceConfig, GovError>(GovError::NotInitialized),
        },
{
    match stored {
        Some(config) => Ok(config),
        None => Err(GovError::NotInitialized),
    }
}

/// The proposal read from storage; `ProposalNotFound` where none is stored.
pub fn load_proposal(stored: Option<Proposal>) -> (res: Result<Proposal, GovError>)
    ensures
        match stored {
            Some(proposal) => res == Ok::<Proposal, GovError>(proposal),
            None => res == Err::<Proposal, GovError>(GovError::ProposalNotFound),
        },
{
    match stored {
        Some(proposal) => Ok(proposal),
        None => Err(GovError::ProposalNotFound),
    }
}

/// What `init` stores: the configuration and the first proposal number (0),
/// unless a configuration is stored already.
pub fn initialize(stored: &Option<GovernanceConfig>, config: GovernanceConfig) -> (res: Result<
    (GovernanceConfig, u64),
    GovError,
>)
    ensures
        stored is Some ==> res == Err::<(GovernanceConfig, u64), GovError>(
            GovError::AlreadyInitialized,
        ),
        stored is None ==> res == Ok::<(GovernanceConfig, u64), GovError>((config, 0u64)),
{
    if stored.is_some() {
        return Err(GovError::AlreadyInitialized);
    }
    Ok((config, 0))
}

/// The number the next proposal gets, and the counter to store after it. An
/// unset counter reads as 0.
pub fn take_next_id(stored: Option<u64>) -> (res: (u64, u64))
    requires
        (match stored {
            Some(n) => n,
            None => 0u64,
        }) < u64::MAX,
    ensures
        res.0 == (match stored {
            Some(n) => n,
            None => 0u64,
        }),
        res.1 == res.0 + 1,
{
    let id = match stored {
        Some(n) => n,
        None => 0,
    };
    (id, id + 1)
}

/// Counts an accepted vote of `voter` on proposal `proposal_id`: adds `weight`
/// to the tally it supports and returns the key that records the vote.
pub fn record_vote(
    proposal: &mut Proposal,
    proposal_id: u64,
    voter: Address,
    support: bool,
    weight: i128,
) -> (res: VoteKey)
    requires
        tally_fits(*old(proposal), support, weight),
    ensures
        *final(proposal) == tallied(*old(proposal), support, weight),
        res == VoteKey::Vote(proposal_id, voter),
{
    tally(proposal, support, weight);
    VoteKey::Vote(proposal_id, voter)
}

// ── One contract call on the records it reads ────────────────────────────────

/// The proposal counter as stored; an unset counter reads as 0.
pub open spec fn counter(next_id: Option<u64>) -> u64 {
    match next_id {
        Some(n) => n,
        None => 0,
    }
}

/// Outcome of `propose` on the stored configuration and counter: the new
/// proposal and the counter to store, or the error.
pub open spec fn propose_call_outcome(
    config: Option<GovernanceConfig>,
    next_id: Option<u64>,
    proposer: Address,
    changes: Vec<ParamChange>,
    now: u64,
) -> Result<(Proposal, u64), GovError> {
    match config {
        None => Err(GovError::NotInitialized),
        Some(c) => {
            let id = counter(next_id);
            Ok((proposal_for(id, proposer, changes, now, c), (id + 1) as u64))
        },
    }
}

/// `propose` on the stored configuration and counter: the proposal to store
/// under its number, and the counter to store after it.
pub fn propose_call(
    config: &Option<GovernanceConfig>,
    next_id: Option<u64>,
    proposer: Address,
    changes: Vec<ParamChange>,
    now: u64,
) -> (res: Result<(Proposal, u64), GovError>)
    requires
        *config matches Some(c) ==> (timing_fits(now, c) && counter(next_id) < u64::MAX),
    ensures
        res == propose_call_outcome(*config, next_id, proposer, changes, now),
{
    match config {
        None => Err(GovError::NotInitialized),
        Some(c) => {
            let (id, next) = take_next_id(next_id);
            Ok((new_proposal(id, proposer, changes, now, c), next))
        },
    }
}

/// Whether `vote` accepts a vote, on the stored configuration and proposal:
/// the contract must be initialised, the proposal stored, and `vote_check` pass.
pub open spec fn vote_gate_outcome(
    config: Option<GovernanceConfig>,
    stored: Option<Proposal>,
    already_voted: bool,
    now: u64,
) -> Result<(), GovError> {
    if config is None {
        Err(GovError::NotInitialized)
    } else {
        match stored {
            None => Err(GovError::ProposalNotFound),
            Some(p) => vote_check(p, now, already_voted),
        }
    }
}

/// The proposal a reference points to, if any.
pub open spec fn deref_proposal(stored: Option<&Proposal>) -> Option<Proposal> {
    match stored {
        Some(p) => Some(*p),
        None => None,
    }
}

/// Checks, in `vote`'s order, whether a vote is accepted on the stored
/// configuration and proposal.
pub fn vote_gate(
    config: &Option<GovernanceConfig>,
    stored: Option<&Proposal>,
    already_voted: bool,
    now: u64,
) -> (res: Result<(), GovError>)
    ensures
        res == vote_gate_outcome(*config, deref_proposal(stored), already_voted, now),
{
    if config.is_none() {
        return Err(GovError::NotInitialized);
    }
    match stored {
        None => Err(GovError::ProposalNotFound),
        Some(p) => check_vote(p, now, already_voted),
    }
}

/// Outcome of `finalize` on the stored proposal and configuration: the status
/// reported and the proposal to store (none when it was no longer active), or
/// the error.
pub open spec fn finalize_call_outcome(
    stored: Option<Proposal>,
    config: Option<GovernanceConfig>,
    now: u64,
) -> Result<(ProposalStatus, Option<Proposal>), GovError> {
    match stored {
        None => Err(GovError::ProposalNotFound),
        Some(p) => match finalize_outcome(p, config, now) {
            Err(err) => Err(err),
            Ok((after, status)) => Ok(
                (status, if p.status == ProposalStatus::Active {
                    Some(after)
                } else {
                    None
                }),
            ),
        },
    }
}

/// `finalize` on the stored proposal and configuration.
pub fn finalize_call(stored: Option<Proposal>, config: &Option<GovernanceConfig>, now: u64) -> (res:
    Result<(ProposalStatus, Option<Proposal>), GovError>)
    ensures
        res == finalize_call_outcome(stored, *config, now),
{
    match stored {
        None => Err(GovError::ProposalNotFound),
        Some(p) => {
            let mut proposal = p;
            let was_active = proposal.status == ProposalStatus::Active;
            let status = finalize_proposal(&mut proposal, config, now)?;
            if was_active {
                Ok((status, Some(proposal)))
            } else {
                Ok((status, None))
            }
        },
    }
}

/// Outcome of `execute` on the stored proposal and configuration: the proposal
/// to store and the escrow contract to apply its changes to, or the error.
pub open spec fn execute_call_outcome(
    stored: Option<Proposal>,
    config: Option<GovernanceConfig>,
    now: u64,
) -> Result<(Proposal, Address), GovError> {
    match stored {
        None => Err(GovError::ProposalNotFound),
        Some(p) => execute_outcome(p, config, now),
    }
}

/// `execute` on the stored proposal and configuration.
pub fn execute_call(stored: Option<Proposal>, config: &Option<GovernanceConfig>, now: u64) -> (res:
    Result<(Proposal, Address), GovError>)
    ensures
        res == execute_call_outcome(stored, *config, now),
{
    match stored {
        None => Err(GovError::ProposalNotFound),
        Some(p) => {
            let mut proposal = p;
            let target = execute_proposal(&mut proposal, config, now)?;
            Ok((proposal, target))
        },
    }
}

// ── The contract over its storage ─────────────────────────────────────────────

/// The contents of the contract's storage: the configuration, the proposals
/// (proposal `i` under `DataKey::Proposal(i)`, `DataKey::NextId` being their
/// number), and the votes cast.
pub struct GovernanceState {
    pub config: Option<GovernanceConfig>,
    pub proposals: Seq<Proposal>,
    pub votes: Seq<VoteKey>,
}

/// Whether the key records a vote of `voter` on proposal `id`.
pub open spec fn vote_is(key: VoteKey, id: u64, voter: Seq<char>) -> bool {
    match key {
        VoteKey::Vote(proposal_id, who) => proposal_id == id && who.strkey@ == voter,
    }
}

/// Whether `voter` has voted on proposal `id`.
pub open spec fn has_voted(votes: Seq<VoteKey>, id: u64, voter: Seq<char>) -> bool {
    exists|i: int| 0 <= i < votes.len() && #[trigger] vote_is(votes[i], id, voter)
}

/// A storage that the contract's operations can reach: proposal `i` has number
/// `i` and, after the configured timelock, becomes executable when its voting
/// ends; nothing is stored before `init`.
pub open spec fn valid(s: GovernanceState) -> bool {
    &&& forall|i: int| 0 <= i < s.proposals.len() ==> (#[trigger] s.proposals[i]).id == i
    &&& s.config matches Some(config) ==> forall|i: int|
        0 <= i < s.proposals.len() ==> (#[trigger] s.proposals[i]).execution_eta
            == s.proposals[i].voting_end + config.timelock_delay
    &&& s.config is None ==> s.proposals.len() == 0 && s.votes.len() == 0
}

/// `init`: stores the configuration, once.
pub open spec fn init_step(s: GovernanceState, config: GovernanceConfig) -> (
    GovernanceState,
    Result<(), GovError>,
) {
    if s.config is Some {
        (s, Err(GovError::AlreadyInitialized))
    } else {
        (GovernanceState { config: Some(config), ..s }, Ok(()))
    }
}

/// The proposal stored under number `id`, if any.
pub open spec fn stored_proposal(s: GovernanceState, id: u64) -> Option<Proposal> {
    if id < s.proposals.len() {
        Some(s.proposals[id as int])
    } else {
        None
    }
}

/// `propose`: stores a new proposal under the next number and returns that number.
pub open spec fn propose_step(
    s: GovernanceState,
    proposer: Address,
    changes: Vec<ParamChange>,
    now: u64,
) -> (GovernanceState, Result<u64, GovError>) {
    match propose_call_outcome(s.config, Some(s.proposals.len() as u64), proposer, changes, now) {
        Err(err) => (s, Err(err)),
        Ok((proposal, _)) => (
            GovernanceState { proposals: s.proposals.push(proposal), ..s },
            Ok(proposal.id),
        ),
    }
}

/// `vote`: adds the voter's `weight` to a tally of proposal `id` and records the vote.
pub open spec fn vote_step(
    s: GovernanceState,
    voter: Address,
    id: u64,
    support: bool,
    now: u64,
    weight: i128,
) -> (GovernanceState, Result<(), GovError>) {
    match vote_gate_outcome(
        s.config,
        stored_proposal(s, id),
        has_voted(s.votes, id, voter.strkey@),
        now,
    ) {
        Err(err) => (s, Err(err)),
        Ok(_) => (
            GovernanceState {
                proposals: s.proposals.update(
                    id as int,
                    tallied(s.proposals[id as int], support, weight),
                ),
                votes: s.votes.push(VoteKey::Vote(id, voter)),
                ..s
            },
            Ok(()),
        ),
    }
}

/// Whether the vote that `vote_step` would count fits in the tallies.
pub open spec fn vote_fits(
    s: GovernanceState,
    voter: Address,
    id: u64,
    support: bool,
    now: u64,
    weight: i128,
) -> bool {
    s.config is Some && id < s.proposals.len() && vote_check(
        s.proposals[id as int],
        now,
        has_voted(s.votes, id, voter.strkey@),
    ) is Ok ==> tally_fits(s.proposals[id as int], support, weight)
}

/// `finalize`: closes the voting on proposal `id`.
pub open spec fn finalize_step(s: GovernanceState, id: u64, now: u64) -> (
    GovernanceState,
    Result<ProposalStatus, GovError>,
) {
    match finalize_call_outcome(stored_proposal(s, id), s.config, now) {
        Err(err) => (s, Err(err)),
        Ok((status, write)) => (
            match write {
                Some(after) => GovernanceState {
                    proposals: s.proposals.update(id as int, after),
                    ..s
                },
                None => s,
            },
            Ok(status),
        ),
    }
}

/// `execute`: marks proposal `id` executed and names the contract to apply it to.
pub open spec fn execute_step(s: GovernanceState, id: u64, now: u64) -> (
    GovernanceState,
    Result<Address, GovError>,
) {
    match execute_call_outcome(stored_proposal(s, id), s.config, now) {
        Err(err) => (s, Err(err)),
        Ok((after, target)) => (
            GovernanceState { proposals: s.proposals.update(id as int, after), ..s },
            Ok(target),
        ),
    }
}

/// The governance contract, with its storage.
#[derive(Debug)]
pub struct GovernanceContract {
    config: Option<GovernanceConfig>,
    next_id: u64,
    proposals: Vec<Proposal>,
    votes: Vec<VoteKey>,
}

impl View for GovernanceContract {
    type V = GovernanceState;

    closed spec fn view(&self) -> GovernanceState {
        GovernanceState { config: self.config, proposals: self.proposals@, votes: self.votes@ }
    }
}

impl GovernanceContract {
    /// The stored proposal counter is the number of proposals.
    pub closed spec fn counter_matches(&self) -> bool {
        self.next_id == self.proposals@.len()
    }

    /// The storage is reachable (`valid`), and the next proposal number is the number of proposals.
    pub open spec fn wf(&self) -> bool {
        &&& self.counter_matches()
        &&& valid(self@)
    }

    /// A freshly deployed contract, not yet initialised.
    pub fn new() -> (res: GovernanceContract)
        ensures
            res.wf(),
            res@.config is None,
            res@.proposals.len() == 0,
            res@.votes.len() == 0,
    {
        GovernanceContract { config: None, next_id: 0, proposals: Vec::new(), votes: Vec::new() }
    }

    /// The number the next proposal will get.
    pub fn next_proposal_id(&self) -> (res: u64)
        requires
            self.wf(),
        ensures
            res == self@.proposals.len(),
    {
        self.next_id
    }

    /// One-time initialisation.
    pub fn init(
        &mut self,
        vote_token: Address,
        voting_period: u64,
        timelock_delay: u64,
        quorum: i128,
        escrow_contract: Address,
    ) -> (res: Result<(), GovError>)
        requires
            old(self).wf(),
        ensures
            final(self).wf(),
            (final(self)@, res) == init_step(
                old(self)@,
                GovernanceConfig {
                    vote_token,
                    voting_period,
                    timelock_delay,
                    quorum,
                    escrow_contract,
                },
            ),
            res is Ok ==> final(self)@.proposals.len() == 0 && final(self)@.votes.len() == 0,
    {
        let config = GovernanceConfig {
            vote_token,
            voting_period,
            timelock_delay,
            quorum,
            escrow_contract,
        };
        let (config, first_id) = initialize(&self.config, config)?;
        self.config = Some(config);
        self.next_id = first_id;
        Ok(())
    }

    /// Submit a new proposal at time `now`. Any address can propose (token
    /// balance is checked at vote time). Returns the proposal's number.
    pub fn propose(&mut self, proposer: Address, changes: Vec<ParamChange>, now: u64) -> (res:
        Result<u64, GovError>)
        requires
            old(self).wf(),
            old(self)@.config matches Some(config) ==> (timing_fits(now, config)
                && old(self)@.proposals.len() < u64::MAX),
        ensures
            final(self).wf(),
            (final(self)@, res) == propose_step(old(self)@, proposer, changes, now),
    {
        let (proposal, next_id) = propose_call(
            &self.config,
            Some(self.next_id),
            proposer,
            changes,
            now,
        )?;
        let id = proposal.id;
        self.proposals.push(proposal);
        self.next_id = next_id;
        Ok(id)
    }

    /// Whether `voter` has voted on proposal `id`.
    fn voted(&self, id: u64, voter: &Address) -> (res: bool)
        ensures
            res == has_voted(self.votes@, id, voter.strkey@),
    {
        let mut i: usize = 0;
        while i < self.votes.len()
            invariant
                i <= self.votes@.len(),
                forall|j: int| 0 <= j < i ==> !vote_is(#[trigger] self.votes@[j], id, voter.strkey@),
            decreases self.votes@.len() - i,
        {
            match &self.votes[i] {
                VoteKey::Vote(proposal_id, who) => {
                    if *proposal_id == id && who.same_as(voter) {
                        assert(vote_is(self.votes@[i as int], id, voter.strkey@));
                        return true;
                    }
                },
            }
            i = i + 1;
        }
        false
    }

    /// Cast a vote at time `now`, with `weight`, the voter's current balance of the vote token.
    pub fn vote(&mut self, voter: Address, proposal_id: u64, support: bool, now: u64, weight: i128) -> (res:
        Result<(), GovError>)
        requires
            old(self).wf(),
            vote_fits(old(self)@, voter, proposal_id, support, now, weight),
        ensures
            final(self).wf(),
            (final(self)@, res) == vote_step(old(self)@, voter, proposal_id, support, now, weight),
    {
        let count = self.proposals.len();
        let already_voted = self.voted(proposal_id, &voter);
        let stored = if proposal_id < count as u64 {
            Some(&self.proposals[proposal_id as usize])
        } else {
            None
        };
        vote_gate(&self.config, stored, already_voted, now)?;
        let index = proposal_id as usize;
        let key = record_vote(&mut self.proposals[index], proposal_id, voter, support, weight);
        self.votes.push(key);
        Ok(())
    }

    /// Finalise the voting on a proposal at time `now`, after its voting period.
    /// Marks it passed or rejected; anyone can call.
    pub fn finalize(&mut self, proposal_id: u64, now: u64) -> (res: Result<ProposalStatus, GovError>)
        requires
            old(self).wf(),
        ensures
            final(self).wf(),
            (final(self)@, res) == finalize_step(old(self)@, proposal_id, now),
    {
        let count = self.proposals.len();
        if proposal_id >= count as u64 {
            return Err(GovError::ProposalNotFound);
        }
        let index = proposal_id as usize;
        let res = finalize_proposal(&mut self.proposals[index], &self.config, now);
        proof {
            if res is Err || old(self)@.proposals[index as int].status != ProposalStatus::Active {
                assert(self.proposals@ =~= old(self).proposals@);
            }
        }
        res
    }

    /// Execute a passed proposal at time `now`, after the timelock has elapsed.
    /// Returns the escrow contract on which `gov_apply` must be invoked with
    /// the proposal's changes.
    pub fn execute(&mut self, proposal_id: u64, now: u64) -> (res: Result<Address, GovError>)
        requires
            old(self).wf(),
        ensures
            final(self).wf(),
            (final(self)@, res) == execute_step(old(self)@, proposal_id, now),
    {
        let count = self.proposals.len();
        if proposal_id >= count as u64 {
            return Err(GovError::ProposalNotFound);
        }
        let index = proposal_id as usize;
        let res = execute_proposal(&mut self.proposals[index], &self.config, now);
        proof {
            if res is Err {
                assert(self.proposals@ =~= old(self).proposals@);
            }
        }
        res
    }

    /// Read a proposal by number.
    pub fn get_proposal(&self, proposal_id: u64) -> (res: Result<Proposal, GovError>)
        requires
            self.wf(),
        ensures
            proposal_id < self@.proposals.len() ==> (res matches Ok(p) && same_proposal(
                p,
                self@.proposals[proposal_id as int],
            )),
            proposal_id >= self@.proposals.len() ==> res == Err::<Proposal, GovError>(
                GovError::ProposalNotFound,
            ),
    {
        let count = self.proposals.len();
        if proposal_id >= count as u64 {
            return Err(GovError::ProposalNotFound);
        }
        Ok(self.proposals[proposal_id as usize].clone())
    }

    /// Read the governance configuration.
    pub fn get_config(&self) -> (res: Result<GovernanceConfig, GovError>)
        ensures
            match self@.config {
                Some(config) => res == Ok::<GovernanceConfig, GovError>(config),
                None => res == Err::<GovernanceConfig, GovError>(GovError::NotInitialized),
            },
    {
        match &self.config {
            Some(cfg) => Ok(cfg.clone()),
            None => Err(GovError::NotInitialized),
        }
    }
}

} // verus!
