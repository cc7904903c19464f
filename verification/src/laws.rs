//! What holds of the escrow's transitions, proved from their definitions.

use vstd::prelude::*;
use crate::address::Address;
use crate::contract::{create_refusal, created, ContractState, LedgerClock};
use crate::error::ErrorKind;
use crate::record::{
    first_stands_at, lemma_deposit_totals, lemma_deposited_within_owed, lemma_enrolled_totals,
    lemma_first_place, lemma_place_of_member, place_of, stands_at, sum_of_shares, EscrowRecord,
    EscrowStatus,
};

verus! {

/// An escrow that is created has the exact sum of the shares as its total
/// rent, is active, and holds no deposit; its record is well formed.
pub proof fn created_record_is_exact(
    clock: LedgerClock,
    creator: Address,
    landlord: Address,
    participants: Seq<Address>,
    shares: Seq<i128>,
    deadline: u64,
)
    requires
        create_refusal(clock, participants, shares, deadline) is None,
    ensures
        created(clock, creator, landlord, participants, shares, deadline).total_rent
            == sum_of_shares(shares),
        created(clock, creator, landlord, participants, shares, deadline).status
            == EscrowStatus::Active,
        created(clock, creator, landlord, participants, shares, deadline).deposited_amount == 0,
        created(clock, creator, landlord, participants, shares, deadline).wf(),
{
    assert(shares.take(shares.len() as int) =~= shares);
    assert(i128::MIN <= sum_of_shares(shares.take(shares.len() as int)) <= i128::MAX);
    lemma_enrolled_totals(participants, shares);
}

/// An escrow is refused as invalid input when its deadline is not after the
/// ledger's time, when there are not as many shares as participants, and when
/// there is no participant.
pub proof fn create_refuses_invalid_input(
    clock: LedgerClock,
    participants: Seq<Address>,
    shares: Seq<i128>,
    deadline: u64,
)
    requires
        deadline <= clock.timestamp || participants.len() != shares.len() || participants.len()
            == 0,
    ensures
        create_refusal(clock, participants, shares, deadline) is Some,
        create_refusal(clock, participants, shares, deadline)->0.kind() == ErrorKind::InvalidInput,
{
}

/// A deposit changes one participant and no other: the first one of that
/// name, who had not deposited and now has. Its address and share stay, and the
/// deposited amount grows by exactly its share.
pub proof fn deposit_changes_one_participant(record: EscrowRecord, now: u64, who: Seq<char>)
    requires
        record.deposit_refusal(now, who) is None,
    ensures
        first_stands_at(record.participants, who, place_of(record.participants, who)),
        record.with_deposit(who).participants.len() == record.participants.len(),
        !record.participants[place_of(record.participants, who)].deposited,
        record.with_deposit(who).participants[place_of(record.participants, who)].deposited,
        forall|i: int|
            0 <= i < record.participants.len() ==> {
                &&& record.with_deposit(who).participants[i].address
                    == (#[trigger] record.participants[i]).address
                &&& record.with_deposit(who).participants[i].share_amount
                    == record.participants[i].share_amount
                &&& i != place_of(record.participants, who) ==> record.with_deposit(
                    who,
                ).participants[i] == record.participants[i]
            },
        record.with_deposit(who).deposited_amount == record.deposited_amount
            + record.participants[place_of(record.participants, who)].share_amount,
        record.with_deposit(who).total_rent == record.total_rent,
{
    lemma_place_of_member(record.participants, who);
}

/// A participant who has deposited cannot deposit again: at any time, the
/// second deposit is refused as an invalid state.
pub proof fn repeated_deposit_is_refused(
    state: ContractState,
    clock: LedgerClock,
    escrow_id: u64,
    participant: Address,
    later: LedgerClock,
)
    requires
        state.deposit_refusal(clock, participant@) is None,
    ensures
        state.deposit(escrow_id, participant).deposit_refusal(later, participant@) is Some,
        state.deposit(escrow_id, participant).deposit_refusal(later, participant@)->0.kind()
            == ErrorKind::InvalidState,
{
    let before = state.record->0;
    let after = before.with_deposit(participant@);
    let place = place_of(before.participants, participant@);
    lemma_place_of_member(before.participants, participant@);
    assert(stands_at(after.participants, participant@, place));
    assert forall|j: int| 0 <= j < place implies !stands_at(after.participants, participant@, j) by {
        assert(!stands_at(before.participants, participant@, j));
    }
    assert(first_stands_at(after.participants, participant@, place));
    lemma_first_place(after.participants, participant@, place);
}

/// A deposit makes the escrow fully funded exactly when it brings the
/// deposited amount up to the total rent: before it the escrow was active, and
/// after it the escrow is fully funded if the total is reached and still
/// active if not.
pub proof fn deposit_funds_when_total_is_reached(record: EscrowRecord, now: u64, who: Seq<char>)
    requires
        record.deposit_refusal(now, who) is None,
    ensures
        record.status == EscrowStatus::Active,
        record.with_deposit(who).status == if record.with_deposit(who).is_funded() {
            EscrowStatus::FullyFunded
        } else {
            EscrowStatus::Active
        },
{
}

/// A well-formed record that takes a deposit was short of its total before,
/// and is well formed after.
pub proof fn deposit_keeps_record_well_formed(record: EscrowRecord, now: u64, who: Seq<char>)
    requires
        record.wf(),
        record.deposit_refusal(now, who) is None,
    ensures
        !record.is_funded(),
        record.with_deposit(who).wf(),
{
    lemma_place_of_member(record.participants, who);
    lemma_deposit_totals(record.participants, place_of(record.participants, who));
}

/// A release leaves the record as it is.
pub proof fn release_keeps_record(state: ContractState, escrow_id: u64)
    ensures
        state.release(escrow_id).record == state.record,
{
}

/// Deposits cannot be refunded up to the deadline, nor once the total rent has
/// been reached.
pub proof fn no_refund_before_deadline_or_when_funded(record: EscrowRecord, now: u64)
    requires
        now <= record.deadline || record.is_funded(),
    ensures
        !record.refundable(now),
{
}

/// After the deadline, the deposits of a well-formed record that is short of
/// its total can be refunded.
pub proof fn refund_after_deadline_when_underfunded(record: EscrowRecord, now: u64)
    requires
        record.wf(),
        now > record.deadline,
        !record.is_funded(),
    ensures
        record.refundable(now),
{
}

/// The funds can be released exactly when the deposited amount has reached the
/// total rent; otherwise the release is refused as an invalid state.
pub proof fn release_follows_funding(state: ContractState)
    requires
        state.record is Some,
        state.record->0.wf(),
    ensures
        state.release_refusal() is None <==> state.record->0.deposited_amount
            >= state.record->0.total_rent,
        state.release_refusal() is Some ==> state.release_refusal()->0.kind()
            == ErrorKind::InvalidState,
{
}

/// In a well-formed record with no negative share, the deposited amount lies
/// between zero and the total rent.
pub proof fn deposited_amount_is_bounded(record: EscrowRecord)
    requires
        record.wf(),
        forall|i: int|
            0 <= i < record.participants.len() ==> record.participants[i].share_amount >= 0,
    ensures
        0 <= record.deposited_amount <= record.total_rent,
{
    lemma_deposited_within_owed(record.participants);
}

} // verus!
