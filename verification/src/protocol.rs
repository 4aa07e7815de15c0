//! What holds of the protocol over any sequence of operations.
//!
//! The operations are those of the other modules. Here they are applied one
//! after the other to the ballot box of an instance and to the records of its
//! voters, and the laws speak of every such run.

use vstd::prelude::*;
use crate::ballot::{proposed, tallied, tally_has_room, vote_weight, voted, Vote, VoteArgs};
use crate::error::MiniNcnError;
use crate::keys::{Node, Pubkey};
use crate::registry::new_voter;
use crate::state::{BallotBox, VoterState};

verus! {

/// The ballot box of an instance and the record of each registered operator.
pub struct Instance {
    /// The ballot box.
    pub ballot_box: BallotBox,
    /// The voters' records, by operator.
    pub voters: Map<Pubkey, VoterState>,
}

/// An operation on an instance, with all that it is given.
pub enum Operation {
    /// The registration of an operator.
    Register {
        operator: Pubkey,
        operator_vault_ticket: Pubkey,
        vault_operator_delegation: Pubkey,
    },
    /// A proposal.
    Propose { current_epoch: u64, new_root: Node },
    /// A vote of the operator that the accounts name.
    Vote { accounts: Vote, args: VoteArgs, current_epoch: u64, membership_proven: bool },
    /// A tally.
    Tally { total_supply: u64, current_epoch: u64 },
}

/// Whether `operation` is a vote that is counted in `instance`: the operator
/// is registered, the vote is admitted, and the tally has room for it.
pub open spec fn vote_counts(instance: Instance, operation: Operation) -> bool {
    operation matches Operation::Vote { accounts, args, current_epoch, membership_proven }
        && instance.voters.contains_key(accounts.operator) && (vote_weight(
        instance.ballot_box,
        instance.voters[accounts.operator],
        accounts,
        current_epoch,
        membership_proven,
    ) matches Ok(weight) && tally_has_room(instance.ballot_box, args.approved, weight))
}

/// Whether `operation` is a proposal that opens the ballot box of `instance`.
pub open spec fn proposal_opens(instance: Instance, operation: Operation) -> bool {
    operation matches Operation::Propose { current_epoch, new_root } && proposed(
        instance.ballot_box,
        current_epoch,
        new_root,
    ) is Ok
}

/// The instance after `operation`. An operation that is turned down leaves
/// the instance as it is, and so do the registration of an operator that has
/// a record already and a vote for which the tally has no room.
pub open spec fn applied(instance: Instance, operation: Operation) -> Instance {
    match operation {
        Operation::Register { operator, operator_vault_ticket, vault_operator_delegation } => {
            if instance.voters.contains_key(operator) {
                instance
            } else {
                Instance {
                    voters: instance.voters.insert(
                        operator,
                        new_voter(
                            instance.ballot_box.config,
                            operator,
                            operator_vault_ticket,
                            vault_operator_delegation,
                        ),
                    ),
                    ..instance
                }
            }
        },
        Operation::Propose { current_epoch, new_root } => {
            match proposed(instance.ballot_box, current_epoch, new_root) {
                Ok(ballot_box) => Instance { ballot_box, ..instance },
                Err(_) => instance,
            }
        },
        Operation::Vote { accounts, args, current_epoch, membership_proven } => {
            if vote_counts(instance, operation) {
                match voted(
                    instance.ballot_box,
                    instance.voters[accounts.operator],
                    accounts,
                    args,
                    current_epoch,
                    membership_proven,
                ) {
                    Ok((ballot_box, voter_state)) => Instance {
                        ballot_box,
                        voters: instance.voters.insert(accounts.operator, voter_state),
                    },
                    Err(_) => instance,
                }
            } else {
                instance
            }
        },
        Operation::Tally { total_supply, current_epoch } => Instance {
            ballot_box: tallied(instance.ballot_box, total_supply, current_epoch).0,
            ..instance
        },
    }
}

/// The instance after `operations`, applied in their order.
pub open spec fn after(instance: Instance, operations: Seq<Operation>) -> Instance
    decreases operations.len(),
{
    if operations.len() == 0 {
        instance
    } else {
        after(applied(instance, operations[0]), operations.drop_first())
    }
}

/// Whether `operation` is a vote of `operator` that is counted in `instance`
/// for the proposal of `epoch`.
pub open spec fn vote_counts_for(
    instance: Instance,
    operation: Operation,
    operator: Pubkey,
    epoch: u64,
) -> bool {
    &&& vote_counts(instance, operation)
    &&& operation->Vote_accounts.operator == operator
    &&& instance.ballot_box.epoch == epoch
}

/// How many votes of `operator` are counted for the proposal of `epoch` while
/// `operations` are applied to `instance`.
pub open spec fn votes_counted(
    instance: Instance,
    operations: Seq<Operation>,
    operator: Pubkey,
    epoch: u64,
) -> nat
    decreases operations.len(),
{
    if operations.len() == 0 {
        0
    } else {
        let here: nat = if vote_counts_for(instance, operations[0], operator, epoch) {
            1
        } else {
            0
        };
        here + votes_counted(
            applied(instance, operations[0]),
            operations.drop_first(),
            operator,
            epoch,
        )
    }
}

/// Whether `operator` has a record in `instance` that shows a vote in `epoch`
/// or later.
pub open spec fn has_voted_since(instance: Instance, operator: Pubkey, epoch: u64) -> bool {
    instance.voters.contains_key(operator) && instance.voters[operator].last_voted_epoch >= epoch
}

/// No operation takes back that an operator has voted in an epoch or later.
proof fn lemma_vote_is_remembered(
    instance: Instance,
    operation: Operation,
    operator: Pubkey,
    epoch: u64,
)
    requires
        has_voted_since(instance, operator, epoch),
    ensures
        has_voted_since(applied(instance, operation), operator, epoch),
        !vote_counts_for(instance, operation, operator, epoch),
{
}

/// Once an operator has voted in an epoch or later, no vote of it is counted
/// for that epoch.
proof fn lemma_no_vote_after_voting(
    instance: Instance,
    operations: Seq<Operation>,
    operator: Pubkey,
    epoch: u64,
)
    requires
        has_voted_since(instance, operator, epoch),
    ensures
        votes_counted(instance, operations, operator, epoch) == 0,
    decreases operations.len(),
{
    if operations.len() > 0 {
        lemma_vote_is_remembered(instance, operations[0], operator, epoch);
        lemma_no_vote_after_voting(
            applied(instance, operations[0]),
            operations.drop_first(),
            operator,
            epoch,
        );
    }
}

/// An operator has at most one vote counted per epoch: whatever the instance
/// and whatever the operations applied to it, at most one vote of `operator`
/// is counted for the proposal of `epoch`.
pub proof fn law_at_most_one_vote(
    instance: Instance,
    operations: Seq<Operation>,
    operator: Pubkey,
    epoch: u64,
)
    ensures
        votes_counted(instance, operations, operator, epoch) <= 1,
    decreases operations.len(),
{
    if operations.len() > 0 {
        let next = applied(instance, operations[0]);
        if vote_counts_for(instance, operations[0], operator, epoch) {
            assert(has_voted_since(next, operator, epoch));
            lemma_no_vote_after_voting(next, operations.drop_first(), operator, epoch);
        } else {
            law_at_most_one_vote(next, operations.drop_first(), operator, epoch);
        }
    }
}

/// The approving stake is reset by a proposal that opens the box, and by
/// nothing else: such a proposal leaves an empty tally, and every other
/// operation leaves the approving stake as it was or greater.
pub proof fn law_approved_votes_grow(instance: Instance, operation: Operation)
    ensures
        proposal_opens(instance, operation) ==> {
            &&& applied(instance, operation).ballot_box.approved_votes == 0
            &&& applied(instance, operation).ballot_box.operators_voted == 0
        },
        !proposal_opens(instance, operation) ==> {
            &&& applied(instance, operation).ballot_box.approved_votes
                >= instance.ballot_box.approved_votes
            &&& applied(instance, operation).ballot_box.operators_voted
                >= instance.ballot_box.operators_voted
        },
{
}

/// While a proposal is open, the approving stake does not shrink: an
/// operation that finds the box open leaves the approving stake as it was or
/// greater.
pub proof fn law_approved_votes_grow_while_open(instance: Instance, operation: Operation)
    requires
        instance.ballot_box.is_open(),
    ensures
        applied(instance, operation).ballot_box.approved_votes
            >= instance.ballot_box.approved_votes,
{
}

/// The epoch of the ballot box never goes back.
pub proof fn law_epoch_moves_forward(instance: Instance, operations: Seq<Operation>)
    ensures
        after(instance, operations).ballot_box.epoch >= instance.ballot_box.epoch,
    decreases operations.len(),
{
    if operations.len() > 0 {
        law_epoch_moves_forward(applied(instance, operations[0]), operations.drop_first());
    }
}

/// An idle box takes no vote: while no proposal is open, every vote is turned
/// down and changes nothing.
pub proof fn law_idle_box_takes_no_vote(
    ballot_box: BallotBox,
    voter_state: VoterState,
    accounts: Vote,
    args: VoteArgs,
    current_epoch: u64,
    membership_proven: bool,
)
    requires
        !ballot_box.is_open(),
    ensures
        voted(ballot_box, voter_state, accounts, args, current_epoch, membership_proven) == Err::<
            (BallotBox, VoterState),
            MiniNcnError,
        >(MiniNcnError::EmptyProposedRoot),
{
}

/// A box is opened by a proposal and closed by a tally, and by nothing else:
/// an operation that finds the box idle and leaves it open is a proposal, and
/// one that finds it open and leaves it idle is a tally.
pub proof fn law_open_between_proposal_and_tally(instance: Instance, operation: Operation)
    ensures
        !instance.ballot_box.is_open() && applied(instance, operation).ballot_box.is_open()
            ==> proposal_opens(instance, operation),
        instance.ballot_box.is_open() && !applied(instance, operation).ballot_box.is_open()
            ==> operation is Tally,
{
}

/// A tally can be repeated: holding the same tally again leaves the box as
/// the first one left it.
pub proof fn law_tally_is_idempotent(ballot_box: BallotBox, total_supply: u64, current_epoch: u64)
    ensures
        tallied(tallied(ballot_box, total_supply, current_epoch).0, total_supply, current_epoch).0
            == tallied(ballot_box, total_supply, current_epoch).0,
        tallied(ballot_box, total_supply, current_epoch).1 is StillOpen ==> tallied(
            ballot_box,
            total_supply,
            current_epoch,
        ).0 == ballot_box,
{
}

/// A vote that is still on its way when the next proposal opens does not
/// count for that proposal: once a proposal has opened the box, a vote for an
/// epoch that the box had reached before is turned down.
pub proof fn law_late_vote_is_turned_down(
    ballot_box: BallotBox,
    proposal_epoch: u64,
    new_root: Node,
    voter_state: VoterState,
    accounts: Vote,
    args: VoteArgs,
    vote_epoch: u64,
    membership_proven: bool,
)
    requires
        proposed(ballot_box, proposal_epoch, new_root) is Ok,
        vote_epoch <= ballot_box.epoch,
    ensures
        voted(
            proposed(ballot_box, proposal_epoch, new_root)->Ok_0,
            voter_state,
            accounts,
            args,
            vote_epoch,
            membership_proven,
        ) == Err::<(BallotBox, VoterState), MiniNcnError>(MiniNcnError::EpochMismatch),
{
}

/// The votes of two operators can be counted in either order: if the first
/// and then the second are counted, then so are the second and then the
/// first, and the ballot box and the two records end up the same.
pub proof fn law_votes_commute(
    ballot_box: BallotBox,
    first_voter: VoterState,
    first: Vote,
    first_args: VoteArgs,
    second_voter: VoterState,
    second: Vote,
    second_args: VoteArgs,
    current_epoch: u64,
)
    requires
        vote_weight(ballot_box, first_voter, first, current_epoch, true) is Ok,
        tally_has_room(
            ballot_box,
            first_args.approved,
            vote_weight(ballot_box, first_voter, first, current_epoch, true)->Ok_0,
        ),
        vote_weight(
            voted(ballot_box, first_voter, first, first_args, current_epoch, true)->Ok_0.0,
            second_voter,
            second,
            current_epoch,
            true,
        ) is Ok,
        tally_has_room(
            voted(ballot_box, first_voter, first, first_args, current_epoch, true)->Ok_0.0,
            second_args.approved,
            vote_weight(
                voted(ballot_box, first_voter, first, first_args, current_epoch, true)->Ok_0.0,
                second_voter,
                second,
                current_epoch,
                true,
            )->Ok_0,
        ),
    ensures
        ({
            let one = voted(ballot_box, first_voter, first, first_args, current_epoch, true);
            let one_two = voted(one->Ok_0.0, second_voter, second, second_args, current_epoch, true);
            let two = voted(ballot_box, second_voter, second, second_args, current_epoch, true);
            let two_one = voted(two->Ok_0.0, first_voter, first, first_args, current_epoch, true);
            &&& two is Ok
            &&& tally_has_room(
                ballot_box,
                second_args.approved,
                vote_weight(ballot_box, second_voter, second, current_epoch, true)->Ok_0,
            )
            &&& two_one is Ok
            &&& tally_has_room(
                two->Ok_0.0,
                first_args.approved,
                vote_weight(two->Ok_0.0, first_voter, first, current_epoch, true)->Ok_0,
            )
            &&& two_one->Ok_0.0 == one_two->Ok_0.0
            &&& two_one->Ok_0.1 == one->Ok_0.1
            &&& two->Ok_0.1 == one_two->Ok_0.1
        }),
{
}

} // verus!
