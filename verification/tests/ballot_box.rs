use mini_ncn::{
    check_consensus, check_vote, has_room, initialize_ballot_box, propose, stake_weight, vote,
    BallotBox,
    DelegationInfo, FinalizeOutcome, MiniNcnError, Node, OperatorInfo, Pubkey, TicketInfo,
    VaultInfo, Vote, VoteArgs, VoterState,
};

const CONFIG: Pubkey = [1u8; 32];
const TREE: Pubkey = [2u8; 32];
const VAULT: Pubkey = [3u8; 32];
const R1: Node = [0x11u8; 32];
const R2: Node = [0x22u8; 32];

fn key(tag: u8, n: u8) -> Pubkey {
    let mut k: Pubkey = [tag; 32];
    k[0] = n;
    k
}

fn voter(n: u8) -> VoterState {
    VoterState {
        config: CONFIG,
        operator: key(0xA0, n),
        operator_vault_ticket: key(0xB0, n),
        vault_operator_delegation: key(0xC0, n),
        last_voted_epoch: 0,
    }
}

fn accounts(n: u8, stake: u64) -> Vote {
    Vote {
        operator: key(0xA0, n),
        operator_admin: key(0xD0, n),
        vault: VAULT,
        operator_vault_ticket: key(0xB0, n),
        vault_info: Some(VaultInfo { vrt_supply: 100 }),
        operator_info: Some(OperatorInfo { admin: key(0xD0, n) }),
        ticket_info: Some(TicketInfo { operator: key(0xA0, n), vault: VAULT }),
        delegation_info: Some(DelegationInfo {
            vault: VAULT,
            operator: key(0xA0, n),
            staked_amount: stake,
        }),
    }
}

fn ballot(approved: bool) -> VoteArgs {
    VoteArgs { root: [9u8; 32], index: 0, approved }
}

fn open_box(epoch: u64, root: Node) -> BallotBox {
    let mut ballot_box = initialize_ballot_box(CONFIG, TREE);
    assert_eq!(propose(&mut ballot_box, epoch, root), Ok(()));
    ballot_box
}

#[test]
fn a_new_ballot_box_is_idle_and_empty() {
    let ballot_box = initialize_ballot_box(CONFIG, TREE);
    assert_eq!(
        ballot_box,
        BallotBox {
            config: CONFIG,
            epoch: 0,
            operators_voted: 0,
            approved_votes: 0,
            merkle_tree: TREE,
            rewards_root: [0u8; 32],
            proposed_rewards_root: None,
        }
    );
    assert!(!ballot_box.is_open());
}

#[test]
fn propose_opens_the_box_for_the_new_epoch() {
    let mut ballot_box = initialize_ballot_box(CONFIG, TREE);
    assert_eq!(propose(&mut ballot_box, 5, R1), Ok(()));
    assert!(ballot_box.is_open());
    assert_eq!(ballot_box.epoch, 5);
    assert_eq!(ballot_box.operators_voted, 0);
    assert_eq!(ballot_box.approved_votes, 0);
    assert_eq!(ballot_box.proposed_rewards_root, Some(R1));
    assert_eq!(ballot_box.rewards_root, [0u8; 32]);
    assert_eq!(ballot_box.config, CONFIG);
    assert_eq!(ballot_box.merkle_tree, TREE);
}

#[test]
fn propose_is_turned_down_while_a_proposal_is_open() {
    let mut ballot_box = open_box(5, R1);
    let before = ballot_box;
    assert_eq!(propose(&mut ballot_box, 6, R2), Err(MiniNcnError::ProposalAlreadyOpen));
    assert_eq!(ballot_box, before);
}

#[test]
fn an_open_box_reports_the_open_proposal_before_the_epoch() {
    let mut ballot_box = open_box(5, R1);
    let before = ballot_box;
    assert_eq!(propose(&mut ballot_box, 5, R2), Err(MiniNcnError::ProposalAlreadyOpen));
    assert_eq!(propose(&mut ballot_box, 4, R2), Err(MiniNcnError::ProposalAlreadyOpen));
    assert_eq!(ballot_box, before);
}

#[test]
fn propose_needs_a_later_epoch() {
    let mut ballot_box = open_box(5, R1);
    assert_eq!(check_consensus(&mut ballot_box, 100, 6), FinalizeOutcome::Expired);
    let before = ballot_box;
    assert_eq!(propose(&mut ballot_box, 5, R2), Err(MiniNcnError::EpochNotAdvanced));
    assert_eq!(propose(&mut ballot_box, 4, R2), Err(MiniNcnError::EpochNotAdvanced));
    assert_eq!(propose(&mut ballot_box, 0, R2), Err(MiniNcnError::EpochNotAdvanced));
    assert_eq!(ballot_box, before);
    assert_eq!(propose(&mut ballot_box, 6, R2), Ok(()));
    assert_eq!(ballot_box.epoch, 6);
    assert_eq!(ballot_box.proposed_rewards_root, Some(R2));
}

#[test]
fn a_new_box_takes_no_proposal_for_epoch_zero() {
    let mut ballot_box = initialize_ballot_box(CONFIG, TREE);
    assert_eq!(propose(&mut ballot_box, 0, R1), Err(MiniNcnError::EpochNotAdvanced));
    assert_eq!(propose(&mut ballot_box, 1, R1), Ok(()));
}

#[test]
fn the_method_resets_the_tally_whatever_the_box_held() {
    let mut ballot_box = BallotBox {
        config: CONFIG,
        epoch: 9,
        operators_voted: 4,
        approved_votes: 70,
        merkle_tree: TREE,
        rewards_root: R1,
        proposed_rewards_root: Some(R1),
    };
    ballot_box.propose(3, R2);
    assert_eq!(
        ballot_box,
        BallotBox {
            config: CONFIG,
            epoch: 3,
            operators_voted: 0,
            approved_votes: 0,
            merkle_tree: TREE,
            rewards_root: R1,
            proposed_rewards_root: Some(R2),
        }
    );
}

#[test]
fn supermajority_by_stake_commits_the_root() {
    let mut ballot_box = open_box(5, R1);
    let mut first = voter(1);
    let mut second = voter(2);
    let mut third = voter(3);
    assert_eq!(vote(&mut ballot_box, &mut first, &accounts(1, 10), &ballot(true), 5, true), Ok(()));
    assert_eq!(
        vote(&mut ballot_box, &mut second, &accounts(2, 10), &ballot(false), 5, true),
        Ok(())
    );
    assert_eq!(vote(&mut ballot_box, &mut third, &accounts(3, 81), &ballot(true), 5, true), Ok(()));
    assert_eq!(ballot_box.operators_voted, 3);
    assert_eq!(ballot_box.approved_votes, 91);
    assert_eq!(check_consensus(&mut ballot_box, 100, 5), FinalizeOutcome::Committed);
    assert_eq!(ballot_box.rewards_root, R1);
    assert_eq!(ballot_box.proposed_rewards_root, None);
    assert_eq!(ballot_box.epoch, 5);
}

#[test]
fn a_proposal_without_quorum_expires_with_its_epoch() {
    let mut ballot_box = open_box(5, R1);
    let committed_before = ballot_box.rewards_root;
    let mut first = voter(1);
    assert_eq!(vote(&mut ballot_box, &mut first, &accounts(1, 10), &ballot(true), 5, true), Ok(()));
    assert_eq!(check_consensus(&mut ballot_box, 100, 6), FinalizeOutcome::Expired);
    assert_eq!(ballot_box.proposed_rewards_root, None);
    assert_eq!(ballot_box.rewards_root, committed_before);
    assert_eq!(ballot_box.approved_votes, 10);
    assert_eq!(ballot_box.operators_voted, 1);
}

#[test]
fn a_tally_without_quorum_in_the_epoch_leaves_the_box_open() {
    let mut ballot_box = open_box(5, R1);
    let mut first = voter(1);
    assert_eq!(vote(&mut ballot_box, &mut first, &accounts(1, 10), &ballot(true), 5, true), Ok(()));
    let before = ballot_box;
    assert_eq!(check_consensus(&mut ballot_box, 100, 5), FinalizeOutcome::StillOpen);
    assert_eq!(ballot_box, before);
    assert_eq!(check_consensus(&mut ballot_box, 100, 5), FinalizeOutcome::StillOpen);
    assert_eq!(check_consensus(&mut ballot_box, 100, 4), FinalizeOutcome::StillOpen);
    assert_eq!(ballot_box, before);
}

#[test]
fn quorum_wins_over_an_expired_window() {
    let mut ballot_box = open_box(5, R1);
    let mut first = voter(1);
    assert_eq!(vote(&mut ballot_box, &mut first, &accounts(1, 67), &ballot(true), 5, true), Ok(()));
    assert_eq!(check_consensus(&mut ballot_box, 100, 9), FinalizeOutcome::Committed);
    assert_eq!(ballot_box.rewards_root, R1);
    assert!(!ballot_box.is_open());
}

#[test]
fn a_tally_of_an_idle_box_changes_nothing() {
    let mut ballot_box = open_box(5, R1);
    let mut first = voter(1);
    assert_eq!(vote(&mut ballot_box, &mut first, &accounts(1, 90), &ballot(true), 5, true), Ok(()));
    assert_eq!(check_consensus(&mut ballot_box, 100, 5), FinalizeOutcome::Committed);
    let settled = ballot_box;
    assert_eq!(check_consensus(&mut ballot_box, 100, 5), FinalizeOutcome::StillOpen);
    assert_eq!(ballot_box, settled);
    assert_eq!(check_consensus(&mut ballot_box, 100, 6), FinalizeOutcome::Expired);
    assert_eq!(ballot_box, settled);
    let mut fresh = initialize_ballot_box(CONFIG, TREE);
    assert_eq!(check_consensus(&mut fresh, 0, 0), FinalizeOutcome::StillOpen);
    assert_eq!(fresh, initialize_ballot_box(CONFIG, TREE));
}

fn tally_with(approved_votes: u64, total_supply: u64) -> FinalizeOutcome {
    let mut ballot_box = BallotBox {
        config: CONFIG,
        epoch: 5,
        operators_voted: 1,
        approved_votes,
        merkle_tree: TREE,
        rewards_root: [0u8; 32],
        proposed_rewards_root: Some(R1),
    };
    check_consensus(&mut ballot_box, total_supply, 5)
}

#[test]
fn the_quorum_is_strictly_more_than_two_thirds_rounded_down() {
    assert_eq!(tally_with(66, 100), FinalizeOutcome::StillOpen);
    assert_eq!(tally_with(67, 100), FinalizeOutcome::Committed);
    assert_eq!(tally_with(2, 3), FinalizeOutcome::StillOpen);
    assert_eq!(tally_with(3, 3), FinalizeOutcome::Committed);
    assert_eq!(tally_with(0, 1), FinalizeOutcome::StillOpen);
    assert_eq!(tally_with(1, 1), FinalizeOutcome::Committed);
    assert_eq!(tally_with(1, 2), FinalizeOutcome::StillOpen);
    assert_eq!(tally_with(2, 2), FinalizeOutcome::Committed);
    assert_eq!(tally_with(0, 0), FinalizeOutcome::StillOpen);
    assert_eq!(tally_with(1, 0), FinalizeOutcome::Committed);
}

#[test]
fn the_quorum_is_exact_for_the_largest_supply() {
    let threshold: u64 = 12297829382473034410;
    assert_eq!(tally_with(threshold, u64::MAX), FinalizeOutcome::StillOpen);
    assert_eq!(tally_with(threshold + 1, u64::MAX), FinalizeOutcome::Committed);
    assert_eq!(tally_with(u64::MAX, u64::MAX), FinalizeOutcome::Committed);
}

#[test]
fn a_vote_is_counted_and_remembered() {
    let mut ballot_box = open_box(5, R1);
    let mut first = voter(1);
    assert_eq!(vote(&mut ballot_box, &mut first, &accounts(1, 40), &ballot(true), 5, true), Ok(()));
    assert_eq!(ballot_box.operators_voted, 1);
    assert_eq!(ballot_box.approved_votes, 40);
    assert_eq!(ballot_box.epoch, 5);
    assert_eq!(ballot_box.proposed_rewards_root, Some(R1));
    assert_eq!(first.last_voted_epoch, 5);
    assert_eq!(first.operator, key(0xA0, 1));
}

#[test]
fn a_vote_against_counts_the_voter_but_no_stake() {
    let mut ballot_box = open_box(5, R1);
    let mut first = voter(1);
    assert_eq!(
        vote(&mut ballot_box, &mut first, &accounts(1, 40), &ballot(false), 5, true),
        Ok(())
    );
    assert_eq!(ballot_box.operators_voted, 1);
    assert_eq!(ballot_box.approved_votes, 0);
    assert_eq!(first.last_voted_epoch, 5);
}

#[test]
fn an_operator_votes_once_per_epoch() {
    let mut ballot_box = open_box(5, R1);
    let mut first = voter(1);
    assert_eq!(vote(&mut ballot_box, &mut first, &accounts(1, 40), &ballot(true), 5, true), Ok(()));
    let box_before = ballot_box;
    let voter_before = first;
    assert_eq!(
        vote(&mut ballot_box, &mut first, &accounts(1, 40), &ballot(true), 5, true),
        Err(MiniNcnError::DuplicateVote)
    );
    assert_eq!(
        vote(&mut ballot_box, &mut first, &accounts(1, 40), &ballot(false), 5, true),
        Err(MiniNcnError::DuplicateVote)
    );
    assert_eq!(ballot_box, box_before);
    assert_eq!(first, voter_before);
}

#[test]
fn an_operator_votes_again_in_the_next_epoch() {
    let mut ballot_box = open_box(5, R1);
    let mut first = voter(1);
    assert_eq!(vote(&mut ballot_box, &mut first, &accounts(1, 40), &ballot(true), 5, true), Ok(()));
    assert_eq!(check_consensus(&mut ballot_box, 100, 6), FinalizeOutcome::Expired);
    assert_eq!(propose(&mut ballot_box, 6, R2), Ok(()));
    assert_eq!(ballot_box.approved_votes, 0);
    assert_eq!(ballot_box.operators_voted, 0);
    assert_eq!(vote(&mut ballot_box, &mut first, &accounts(1, 40), &ballot(true), 6, true), Ok(()));
    assert_eq!(first.last_voted_epoch, 6);
    assert_eq!(ballot_box.approved_votes, 40);
}

#[test]
fn an_idle_box_takes_no_vote() {
    let mut ballot_box = initialize_ballot_box(CONFIG, TREE);
    let mut first = voter(1);
    let before = ballot_box;
    assert_eq!(
        vote(&mut ballot_box, &mut first, &accounts(1, 40), &ballot(true), 0, true),
        Err(MiniNcnError::EmptyProposedRoot)
    );
    assert_eq!(ballot_box, before);
    let mut settled = open_box(5, R1);
    assert_eq!(check_consensus(&mut settled, 100, 6), FinalizeOutcome::Expired);
    assert_eq!(
        vote(&mut settled, &mut first, &accounts(1, 40), &ballot(true), 5, true),
        Err(MiniNcnError::EmptyProposedRoot)
    );
    assert_eq!(first, voter(1));
}

#[test]
fn a_vote_for_another_epoch_is_turned_down() {
    let mut ballot_box = open_box(5, R1);
    let mut first = voter(1);
    let before = ballot_box;
    assert_eq!(
        vote(&mut ballot_box, &mut first, &accounts(1, 40), &ballot(true), 4, true),
        Err(MiniNcnError::EpochMismatch)
    );
    assert_eq!(
        vote(&mut ballot_box, &mut first, &accounts(1, 40), &ballot(true), 6, true),
        Err(MiniNcnError::EpochMismatch)
    );
    assert_eq!(ballot_box, before);
    assert_eq!(first, voter(1));
}

#[test]
fn a_vote_without_proven_membership_is_turned_down() {
    let mut ballot_box = open_box(5, R1);
    let mut first = voter(1);
    let before = ballot_box;
    assert_eq!(
        vote(&mut ballot_box, &mut first, &accounts(1, 40), &ballot(true), 5, false),
        Err(MiniNcnError::MembershipNotProven)
    );
    assert_eq!(ballot_box, before);
    assert_eq!(first, voter(1));
}

#[test]
fn a_vote_signed_by_another_is_turned_down() {
    let mut ballot_box = open_box(5, R1);
    let mut first = voter(1);
    let mut forged = accounts(1, 40);
    forged.operator_admin = key(0xD0, 2);
    assert_eq!(
        vote(&mut ballot_box, &mut first, &forged, &ballot(true), 5, true),
        Err(MiniNcnError::UnauthorizedVoter)
    );
    let mut unreadable = accounts(1, 40);
    unreadable.operator_info = None;
    assert_eq!(
        vote(&mut ballot_box, &mut first, &unreadable, &ballot(true), 5, true),
        Err(MiniNcnError::UnauthorizedVoter)
    );
    assert_eq!(ballot_box, open_box(5, R1));
    assert_eq!(first, voter(1));
}

#[test]
fn the_first_failed_condition_decides() {
    let mut first = voter(1);
    first.last_voted_epoch = 5;
    let mut bad = accounts(1, 40);
    bad.operator_admin = key(0xD0, 2);
    bad.vault_info = None;
    let mut idle = initialize_ballot_box(CONFIG, TREE);
    assert_eq!(
        vote(&mut idle, &mut first, &bad, &ballot(true), 7, false),
        Err(MiniNcnError::EmptyProposedRoot)
    );
    let mut ballot_box = open_box(5, R1);
    assert_eq!(
        vote(&mut ballot_box, &mut first, &bad, &ballot(true), 7, false),
        Err(MiniNcnError::EpochMismatch)
    );
    assert_eq!(
        vote(&mut ballot_box, &mut first, &bad, &ballot(true), 5, false),
        Err(MiniNcnError::DuplicateVote)
    );
    first.last_voted_epoch = 4;
    assert_eq!(
        vote(&mut ballot_box, &mut first, &bad, &ballot(true), 5, false),
        Err(MiniNcnError::MembershipNotProven)
    );
    assert_eq!(
        vote(&mut ballot_box, &mut first, &bad, &ballot(true), 5, true),
        Err(MiniNcnError::InvalidVault)
    );
    bad.vault_info = Some(VaultInfo { vrt_supply: 100 });
    assert_eq!(
        vote(&mut ballot_box, &mut first, &bad, &ballot(true), 5, true),
        Err(MiniNcnError::UnauthorizedVoter)
    );
    bad.operator_admin = key(0xD0, 1);
    bad.ticket_info = None;
    bad.delegation_info = None;
    assert_eq!(
        vote(&mut ballot_box, &mut first, &bad, &ballot(true), 5, true),
        Err(MiniNcnError::InvalidOperatorVaultTicket)
    );
    bad.ticket_info = Some(TicketInfo { operator: key(0xA0, 1), vault: VAULT });
    assert_eq!(
        vote(&mut ballot_box, &mut first, &bad, &ballot(true), 5, true),
        Err(MiniNcnError::InvalidVaultOperatorDelegation)
    );
    assert_eq!(ballot_box, open_box(5, R1));
}

#[test]
fn the_stake_is_read_from_a_delegation_that_fits() {
    let first = voter(1);
    assert_eq!(stake_weight(&first, &accounts(1, 40)), Ok(40));
    assert_eq!(stake_weight(&first, &accounts(1, 0)), Ok(0));
    assert_eq!(stake_weight(&first, &accounts(1, u64::MAX)), Ok(u64::MAX));
}

#[test]
fn a_vote_needs_a_readable_vault() {
    let mut ballot_box = open_box(5, R1);
    let mut first = voter(1);
    let mut a = accounts(1, 40);
    a.vault_info = None;
    assert_eq!(
        vote(&mut ballot_box, &mut first, &a, &ballot(true), 5, true),
        Err(MiniNcnError::InvalidVault)
    );
    assert_eq!(check_vote(&ballot_box, &first, &a, 5, true), Err(MiniNcnError::InvalidVault));
    assert_eq!(ballot_box, open_box(5, R1));
    assert_eq!(first, voter(1));
}

#[test]
fn the_stake_needs_the_ticket_of_the_voter() {
    let first = voter(1);
    let mut other_ticket = accounts(1, 40);
    other_ticket.operator_vault_ticket = key(0xB0, 2);
    assert_eq!(
        stake_weight(&first, &other_ticket),
        Err(MiniNcnError::InvalidOperatorVaultTicket)
    );
    let mut unreadable = accounts(1, 40);
    unreadable.ticket_info = None;
    assert_eq!(stake_weight(&first, &unreadable), Err(MiniNcnError::InvalidOperatorVaultTicket));
    let mut other_operator = accounts(1, 40);
    other_operator.ticket_info = Some(TicketInfo { operator: key(0xA0, 2), vault: VAULT });
    assert_eq!(
        stake_weight(&first, &other_operator),
        Err(MiniNcnError::InvalidOperatorVaultTicket)
    );
    let mut other_vault = accounts(1, 40);
    other_vault.ticket_info = Some(TicketInfo { operator: key(0xA0, 1), vault: [4u8; 32] });
    assert_eq!(stake_weight(&first, &other_vault), Err(MiniNcnError::InvalidOperatorVaultTicket));
}

#[test]
fn the_stake_needs_the_delegation_of_the_vault_to_the_operator() {
    let first = voter(1);
    let mut unreadable = accounts(1, 40);
    unreadable.delegation_info = None;
    assert_eq!(
        stake_weight(&first, &unreadable),
        Err(MiniNcnError::InvalidVaultOperatorDelegation)
    );
    let mut other_operator = accounts(1, 40);
    other_operator.delegation_info =
        Some(DelegationInfo { vault: VAULT, operator: key(0xA0, 2), staked_amount: 40 });
    assert_eq!(stake_weight(&first, &other_operator), Err(MiniNcnError::InvalidOperator));
    let mut other_vault = accounts(1, 40);
    other_vault.delegation_info =
        Some(DelegationInfo { vault: [4u8; 32], operator: key(0xA0, 1), staked_amount: 40 });
    assert_eq!(stake_weight(&first, &other_vault), Err(MiniNcnError::InvalidVault));
    let mut both = accounts(1, 40);
    both.delegation_info =
        Some(DelegationInfo { vault: [4u8; 32], operator: key(0xA0, 2), staked_amount: 40 });
    assert_eq!(stake_weight(&first, &both), Err(MiniNcnError::InvalidOperator));
}

#[test]
fn a_vote_with_accounts_that_do_not_fit_is_turned_down() {
    let mut ballot_box = open_box(5, R1);
    let mut first = voter(1);
    let mut a = accounts(1, 40);
    a.delegation_info = None;
    assert_eq!(
        vote(&mut ballot_box, &mut first, &a, &ballot(true), 5, true),
        Err(MiniNcnError::InvalidVaultOperatorDelegation)
    );
    let mut b = accounts(1, 40);
    b.ticket_info = None;
    assert_eq!(
        vote(&mut ballot_box, &mut first, &b, &ballot(true), 5, true),
        Err(MiniNcnError::InvalidOperatorVaultTicket)
    );
    let mut c = accounts(1, 40);
    c.delegation_info =
        Some(DelegationInfo { vault: VAULT, operator: key(0xA0, 2), staked_amount: 40 });
    assert_eq!(
        vote(&mut ballot_box, &mut first, &c, &ballot(true), 5, true),
        Err(MiniNcnError::InvalidOperator)
    );
    assert_eq!(ballot_box, open_box(5, R1));
    assert_eq!(first, voter(1));
}

#[test]
fn checking_a_vote_counts_nothing() {
    let ballot_box = open_box(5, R1);
    let first = voter(1);
    assert_eq!(check_vote(&ballot_box, &first, &accounts(1, 40), 5, true), Ok(40));
    assert_eq!(
        check_vote(&ballot_box, &first, &accounts(1, 40), 5, false),
        Err(MiniNcnError::MembershipNotProven)
    );
    assert_eq!(
        check_vote(&ballot_box, &first, &accounts(1, 40), 6, true),
        Err(MiniNcnError::EpochMismatch)
    );
    assert_eq!(ballot_box, open_box(5, R1));
}

#[test]
fn the_tally_holds_the_largest_stake() {
    let mut ballot_box = open_box(5, R1);
    let mut first = voter(1);
    let mut second = voter(2);
    assert_eq!(
        vote(&mut ballot_box, &mut first, &accounts(1, u64::MAX - 1), &ballot(true), 5, true),
        Ok(())
    );
    assert_eq!(vote(&mut ballot_box, &mut second, &accounts(2, 1), &ballot(true), 5, true), Ok(()));
    assert_eq!(ballot_box.approved_votes, u64::MAX);
    assert_eq!(ballot_box.operators_voted, 2);
}

#[test]
fn the_approving_stake_never_shrinks_while_the_box_is_open() {
    let mut ballot_box = open_box(5, R1);
    let stakes: [u64; 5] = [7, 0, 30, 1, 12];
    let mut last: u64 = 0;
    let mut n: u8 = 0;
    while n < 5 {
        let mut v = voter(n);
        let approved = n % 2 == 0;
        assert_eq!(
            vote(&mut ballot_box, &mut v, &accounts(n, stakes[n as usize]), &ballot(approved), 5, true),
            Ok(())
        );
        assert!(ballot_box.approved_votes >= last);
        last = ballot_box.approved_votes;
        assert_eq!(check_consensus(&mut ballot_box, 1000, 5), FinalizeOutcome::StillOpen);
        assert_eq!(ballot_box.approved_votes, last);
        n += 1;
    }
    assert_eq!(last, 7 + 30 + 12);
    assert_eq!(ballot_box.operators_voted, 5);
}

#[test]
fn a_late_vote_does_not_count_for_the_next_proposal() {
    let mut ballot_box = open_box(5, R1);
    assert_eq!(check_consensus(&mut ballot_box, 100, 6), FinalizeOutcome::Expired);
    assert_eq!(propose(&mut ballot_box, 6, R2), Ok(()));
    let mut first = voter(1);
    assert_eq!(
        vote(&mut ballot_box, &mut first, &accounts(1, 40), &ballot(true), 5, true),
        Err(MiniNcnError::EpochMismatch)
    );
    assert_eq!(ballot_box.approved_votes, 0);
}

#[test]
fn the_tally_has_room_until_a_counter_is_full() {
    let mut ballot_box = open_box(5, R1);
    assert!(has_room(&ballot_box, true, u64::MAX));
    assert!(has_room(&ballot_box, false, u64::MAX));
    ballot_box.approved_votes = 1;
    assert!(!has_room(&ballot_box, true, u64::MAX));
    assert!(has_room(&ballot_box, true, u64::MAX - 1));
    assert!(has_room(&ballot_box, false, u64::MAX));
    ballot_box.approved_votes = u64::MAX;
    assert!(has_room(&ballot_box, true, 0));
    assert!(!has_room(&ballot_box, true, 1));
    ballot_box.operators_voted = u64::MAX - 1;
    assert!(has_room(&ballot_box, true, 0));
    ballot_box.operators_voted = u64::MAX;
    assert!(!has_room(&ballot_box, true, 0));
    assert!(!has_room(&ballot_box, false, 0));
}
