use std::collections::HashMap;

use star_escrow::address::Address;
use star_escrow::governance::{
    execute_call, finalize_call, propose_call, vote_gate, initialize, record_vote, take_next_id, GovError, GovernanceConfig, GovernanceContract, ParamChange, ProposalStatus,
    VoteKey,
};

struct Setup {
    gov: GovernanceContract,
    now: u64,
    balances: HashMap<String, i128>,
    voter_a: Address,
    voter_b: Address,
    proposer: Address,
    token: Address,
    /// Dummy escrow address (we don't need a real escrow for governance unit tests)
    escrow: Address,
    voting_period: u64,
    timelock_delay: u64,
}

impl Setup {
    fn new() -> Self {
        let voter_a = Address::new("GVOTERA");
        let voter_b = Address::new("GVOTERB");
        let proposer = Address::new("GPROPOSER");
        let escrow = Address::new("CESCROW");
        let token = Address::new("CVOTETOKEN");

        // Mint voting tokens
        let mut balances = HashMap::new();
        balances.insert(voter_a.strkey.clone(), 1_000_000);
        balances.insert(voter_b.strkey.clone(), 500_000);
        balances.insert(proposer.strkey.clone(), 100_000);

        let mut gov = GovernanceContract::new();
        let voting_period = 3600u64; // 1 hour
        let timelock_delay = 7200u64; // 2 hours

        gov.init(token.clone(), voting_period, timelock_delay, 500_000i128, escrow.clone()).unwrap();

        Setup { gov, now: 0, balances, voter_a, voter_b, proposer, token, escrow, voting_period, timelock_delay }
    }

    fn changes(&self, key: &str, value: &str) -> Vec<ParamChange> {
        vec![ParamChange { key: key.to_string(), value: value.to_string() }]
    }

    fn propose(&mut self, key: &str, value: &str) -> u64 {
        let changes = self.changes(key, value);
        self.gov.propose(self.proposer.clone(), changes, self.now).unwrap()
    }

    fn vote(&mut self, voter: &Address, id: u64, support: bool) -> Result<(), GovError> {
        let weight = *self.balances.get(&voter.strkey).unwrap_or(&0);
        self.gov.vote(voter.clone(), id, support, self.now, weight)
    }
}

#[test]
fn test_double_init_fails() {
    let mut s = Setup::new();
    let result = s.gov.init(s.token.clone(), 3600, 7200, 500_000, s.escrow.clone());
    assert_eq!(result, Err(GovError::AlreadyInitialized));
}

#[test]
fn test_propose_creates_proposal() {
    let mut s = Setup::new();
    let id = s.propose("fee_bps", "200");
    assert_eq!(id, 0);

    let proposal = s.gov.get_proposal(id).unwrap();
    assert_eq!(proposal.id, 0);
    assert_eq!(proposal.status, ProposalStatus::Active);
    assert_eq!(proposal.votes_for, 0);
}

#[test]
fn test_vote_increments_weight() {
    let mut s = Setup::new();
    let id = s.propose("fee_bps", "200");

    let a = s.voter_a.clone();
    s.vote(&a, id, true).unwrap();
    let proposal = s.gov.get_proposal(id).unwrap();
    assert_eq!(proposal.votes_for, 1_000_000);
    assert_eq!(proposal.votes_against, 0);

    let b = s.voter_b.clone();
    s.vote(&b, id, false).unwrap();
    let proposal = s.gov.get_proposal(id).unwrap();
    assert_eq!(proposal.votes_against, 500_000);
}

#[test]
fn test_double_vote_rejected() {
    let mut s = Setup::new();
    let id = s.propose("fee_bps", "200");
    let a = s.voter_a.clone();
    s.vote(&a, id, true).unwrap();

    let result = s.vote(&a, id, true);
    assert_eq!(result, Err(GovError::AlreadyVoted));
}

#[test]
fn test_vote_after_period_rejected() {
    let mut s = Setup::new();
    let id = s.propose("fee_bps", "200");

    // Advance past voting period
    s.now += s.voting_period + 1;

    let a = s.voter_a.clone();
    let result = s.vote(&a, id, true);
    assert_eq!(result, Err(GovError::VotingClosed));
}

#[test]
fn test_finalize_before_period_ends_fails() {
    let mut s = Setup::new();
    let id = s.propose("fee_bps", "200");

    let result = s.gov.finalize(id, s.now);
    assert_eq!(result, Err(GovError::VotingStillOpen));
}

#[test]
fn test_finalize_passes_with_quorum_and_majority() {
    let mut s = Setup::new();
    let id = s.propose("fee_bps", "200");

    // voter_a has 1_000_000 ≥ quorum 500_000 and > voter_b's 500_000
    let (a, b) = (s.voter_a.clone(), s.voter_b.clone());
    s.vote(&a, id, true).unwrap();
    s.vote(&b, id, false).unwrap();

    s.now += s.voting_period + 1;

    let status = s.gov.finalize(id, s.now).unwrap();
    assert_eq!(status, ProposalStatus::Passed);
}

#[test]
fn test_finalize_rejects_below_quorum() {
    let mut s = Setup::new();
    let id = s.propose("fee_bps", "200");

    // proposer has only 100_000 < quorum 500_000
    let p = s.proposer.clone();
    s.vote(&p, id, true).unwrap();

    s.now += s.voting_period + 1;

    let status = s.gov.finalize(id, s.now).unwrap();
    assert_eq!(status, ProposalStatus::Rejected);
}

#[test]
fn test_execute_before_timelock_fails() {
    let mut s = Setup::new();
    let id = s.propose("fee_bps", "200");
    let a = s.voter_a.clone();
    s.vote(&a, id, true).unwrap();

    s.now += s.voting_period + 1;
    s.gov.finalize(id, s.now).unwrap();

    // Timelock not elapsed yet
    let result = s.gov.execute(id, s.now);
    assert_eq!(result.unwrap_err(), GovError::TimelockNotElapsed);
}

#[test]
fn test_execute_not_passed_fails() {
    let mut s = Setup::new();
    let id = s.propose("fee_bps", "200");
    // No votes → rejected

    s.now += s.voting_period + 1;
    s.gov.finalize(id, s.now).unwrap();

    s.now += s.timelock_delay + 1;

    let result = s.gov.execute(id, s.now);
    assert_eq!(result.unwrap_err(), GovError::NotPassed);
}

#[test]
fn test_proposal_id_increments() {
    let mut s = Setup::new();
    let id0 = s.propose("fee_bps", "100");
    let id1 = s.propose("fee_bps", "200");
    assert_eq!(id0, 0);
    assert_eq!(id1, 1);
}

#[test]
fn test_get_proposal_not_found() {
    let s = Setup::new();
    let result = s.gov.get_proposal(99);
    assert_eq!(result.unwrap_err(), GovError::ProposalNotFound);
}

#[test]
fn test_full_lifecycle_passes_and_marks_executed() {
    let mut s = Setup::new();
    let id = s.propose("fee_bps", "150");
    let a = s.voter_a.clone();
    s.vote(&a, id, true).unwrap();

    // End voting
    s.now += s.voting_period + 1;
    let status = s.gov.finalize(id, s.now).unwrap();
    assert_eq!(status, ProposalStatus::Passed);

    // Elapse timelock
    s.now += s.timelock_delay + 1;

    let proposal = s.gov.get_proposal(id).unwrap();
    assert_eq!(proposal.status, ProposalStatus::Passed);
    assert!(s.now >= proposal.execution_eta);

    // Executing names the escrow contract to apply the changes to, once.
    let target = s.gov.execute(id, s.now).unwrap();
    assert_eq!(target.strkey, "CESCROW");
    assert_eq!(s.gov.get_proposal(id).unwrap().status, ProposalStatus::Executed);
    assert_eq!(s.gov.execute(id, s.now).unwrap_err(), GovError::AlreadyExecuted);
}

#[test]
fn test_uninitialised_contract_refuses_everything() {
    let mut gov = GovernanceContract::new();
    assert_eq!(gov.get_config().unwrap_err(), GovError::NotInitialized);
    assert_eq!(gov.propose(Address::new("GP"), Vec::new(), 0).unwrap_err(), GovError::NotInitialized);
    assert_eq!(gov.vote(Address::new("GV"), 0, true, 0, 1).unwrap_err(), GovError::NotInitialized);
    assert_eq!(gov.finalize(0, 0).unwrap_err(), GovError::ProposalNotFound);
    assert_eq!(gov.execute(0, 0).unwrap_err(), GovError::ProposalNotFound);
}

#[test]
fn test_config_is_stored_once() {
    let mut s = Setup::new();
    let cfg = s.gov.get_config().unwrap();
    assert_eq!(cfg.vote_token.strkey, "CVOTETOKEN");
    assert_eq!(cfg.voting_period, 3600);
    assert_eq!(cfg.timelock_delay, 7200);
    assert_eq!(cfg.quorum, 500_000);
    assert_eq!(cfg.escrow_contract.strkey, "CESCROW");
    assert!(s.gov.init(Address::new("COTHER"), 1, 1, 1, Address::new("COTHER")).is_err());
    assert_eq!(s.gov.get_config().unwrap().voting_period, 3600);
}

#[test]
fn test_proposal_times_follow_config() {
    let mut s = Setup::new();
    s.now = 1_000;
    let id = s.propose("fee_bps", "300");
    let p = s.gov.get_proposal(id).unwrap();
    assert_eq!(p.voting_end, 1_000 + 3600);
    assert_eq!(p.execution_eta, 1_000 + 3600 + 7200);
    assert_eq!(p.proposer.strkey, "GPROPOSER");
    assert_eq!(p.changes.len(), 1);
    assert_eq!(p.changes[0].key, "fee_bps");
    assert_eq!(p.changes[0].value, "300");
}

#[test]
fn test_vote_at_voting_end_is_accepted() {
    let mut s = Setup::new();
    let id = s.propose("fee_bps", "200");
    s.now = s.voting_period;
    let a = s.voter_a.clone();
    s.vote(&a, id, true).unwrap();
    // Finalising at the voting end itself is still too early.
    assert_eq!(s.gov.finalize(id, s.now).unwrap_err(), GovError::VotingStillOpen);
}

#[test]
fn test_vote_is_per_proposal() {
    let mut s = Setup::new();
    let id0 = s.propose("fee_bps", "100");
    let id1 = s.propose("fee_bps", "200");
    let a = s.voter_a.clone();
    s.vote(&a, id0, true).unwrap();
    s.vote(&a, id1, false).unwrap();
    assert_eq!(s.gov.get_proposal(id0).unwrap().votes_for, 1_000_000);
    assert_eq!(s.gov.get_proposal(id1).unwrap().votes_against, 1_000_000);
    assert_eq!(s.gov.get_proposal(id1).unwrap().votes_for, 0);
}

#[test]
fn test_tie_is_rejected_and_finalize_is_idempotent() {
    let mut s = Setup::new();
    let id = s.propose("fee_bps", "200");
    let b = s.voter_b.clone();
    s.vote(&b, id, true).unwrap();
    let extra = Address::new("GEXTRA");
    s.balances.insert(extra.strkey.clone(), 500_000);
    s.vote(&extra, id, false).unwrap();
    s.now += s.voting_period + 1;
    // 500_000 reaches the quorum but does not outnumber the votes against.
    assert_eq!(s.gov.finalize(id, s.now).unwrap(), ProposalStatus::Rejected);
    assert_eq!(s.gov.finalize(id, s.now + 10).unwrap(), ProposalStatus::Rejected);
    let a = s.voter_a.clone();
    assert_eq!(s.vote(&a, id, true).unwrap_err(), GovError::VotingClosed);
}

#[test]
fn test_voting_closed_after_finalize() {
    let mut s = Setup::new();
    let id = s.propose("fee_bps", "200");
    let a = s.voter_a.clone();
    s.vote(&a, id, true).unwrap();
    s.now += s.voting_period + 1;
    assert_eq!(s.gov.finalize(id, s.now).unwrap(), ProposalStatus::Passed);
    let b = s.voter_b.clone();
    assert_eq!(s.vote(&b, id, false).unwrap_err(), GovError::VotingClosed);
    assert_eq!(s.gov.get_proposal(id).unwrap().votes_against, 0);
}

#[test]
fn test_initialize_once_with_first_id_zero() {
    let config = GovernanceConfig {
        vote_token: Address::new("CT"),
        voting_period: 10,
        timelock_delay: 20,
        quorum: 5,
        escrow_contract: Address::new("CE"),
    };
    let (stored, first) = initialize(&None, config.clone()).unwrap();
    assert_eq!(first, 0);
    assert_eq!(stored.voting_period, 10);
    assert_eq!(initialize(&Some(stored), config).unwrap_err(), GovError::AlreadyInitialized);
}

#[test]
fn test_take_next_id() {
    assert_eq!(take_next_id(None), (0, 1));
    assert_eq!(take_next_id(Some(41)), (41, 42));
}

#[test]
fn test_record_vote_counts_and_keys() {
    let mut s = Setup::new();
    let id = s.propose("fee_bps", "200");
    let mut p = s.gov.get_proposal(id).unwrap();
    let key = record_vote(&mut p, id, Address::new("GV"), false, 70);
    assert_eq!(p.votes_against, 70);
    assert_eq!(p.votes_for, 0);
    let VoteKey::Vote(pid, who) = key;
    assert_eq!(pid, id);
    assert_eq!(who.strkey, "GV");
}

#[test]
fn test_next_id_is_zero_after_init() {
    let s = Setup::new();
    assert_eq!(s.gov.next_proposal_id(), 0);
}

#[test]
fn test_load_errors() {
    assert_eq!(star_escrow::governance::load_config(None).unwrap_err(), GovError::NotInitialized);
    assert_eq!(star_escrow::governance::load_proposal(None).unwrap_err(), GovError::ProposalNotFound);
    let s = Setup::new();
    let cfg = s.gov.get_config().unwrap();
    assert_eq!(star_escrow::governance::load_config(Some(cfg)).unwrap().quorum, 500_000);
}

fn sample_config() -> GovernanceConfig {
    GovernanceConfig {
        vote_token: Address::new("CT"),
        voting_period: 100,
        timelock_delay: 50,
        quorum: 10,
        escrow_contract: Address::new("CE"),
    }
}

#[test]
fn test_propose_call_uses_counter() {
    let cfg = Some(sample_config());
    let (p, next) = propose_call(&cfg, None, Address::new("GP"), Vec::new(), 7).unwrap();
    assert_eq!((p.id, next), (0, 1));
    assert_eq!((p.voting_end, p.execution_eta), (107, 157));
    let (p, next) = propose_call(&cfg, Some(5), Address::new("GP"), Vec::new(), 7).unwrap();
    assert_eq!((p.id, next), (5, 6));
    assert_eq!(propose_call(&None, Some(5), Address::new("GP"), Vec::new(), 7).unwrap_err(), GovError::NotInitialized);
}

#[test]
fn test_vote_gate_order() {
    let cfg = Some(sample_config());
    let (p, _) = propose_call(&cfg, None, Address::new("GP"), Vec::new(), 0).unwrap();
    assert_eq!(vote_gate(&None, Some(&p), false, 0).unwrap_err(), GovError::NotInitialized);
    assert_eq!(vote_gate(&cfg, None, false, 0).unwrap_err(), GovError::ProposalNotFound);
    assert_eq!(vote_gate(&cfg, Some(&p), true, 0).unwrap_err(), GovError::AlreadyVoted);
    assert_eq!(vote_gate(&cfg, Some(&p), false, 101).unwrap_err(), GovError::VotingClosed);
    assert!(vote_gate(&cfg, Some(&p), false, 100).is_ok());
}

#[test]
fn test_finalize_and_execute_calls() {
    let cfg = Some(sample_config());
    let (mut p, _) = propose_call(&cfg, None, Address::new("GP"), Vec::new(), 0).unwrap();
    let _ = record_vote(&mut p, 0, Address::new("GV"), true, 20);
    assert_eq!(finalize_call(None, &cfg, 200).unwrap_err(), GovError::ProposalNotFound);
    assert_eq!(finalize_call(Some(p.clone()), &cfg, 100).unwrap_err(), GovError::VotingStillOpen);
    let (status, write) = finalize_call(Some(p), &cfg, 101).unwrap();
    assert_eq!(status, ProposalStatus::Passed);
    let passed = write.expect("an active proposal is written back");
    // Finalising a decided proposal reports its status and writes nothing.
    let (again, write) = finalize_call(Some(passed.clone()), &cfg, 500).unwrap();
    assert_eq!(again, ProposalStatus::Passed);
    assert!(write.is_none());
    assert_eq!(execute_call(Some(passed.clone()), &cfg, 149).unwrap_err(), GovError::TimelockNotElapsed);
    let (executed, target) = execute_call(Some(passed), &cfg, 150).unwrap();
    assert_eq!(executed.status, ProposalStatus::Executed);
    assert_eq!(target.strkey, "CE");
    assert_eq!(execute_call(Some(executed), &cfg, 150).unwrap_err(), GovError::AlreadyExecuted);
}
