//! The escrow's operations.
//!
//! A `RentEscrowContract` holds the one storage slot of the escrow and the
//! notifications that its operations have emitted. Each operation is a
//! transition of that state: it either completes, and the new state is the one
//! that the matching `ContractState` function gives, or it is refused with the
//! reason that the matching `..._refusal` function gives, and nothing changes.

use vstd::prelude::*;
use crate::address::Address;
use crate::error::EscrowError;
use crate::laws::{created_record_is_exact, deposit_keeps_record_well_formed};
use crate::record::{
    enrolled, has_member, place_of, running_total_fits, sum_of_shares, EscrowData, EscrowEvent,
    EscrowRecord, EscrowStatus, Participant,
};

verus! {

/// One reading of the ledger's clock.
#[derive(Clone, Copy, Debug, PartialEq, Eq, Structural)]
pub struct LedgerClock {
    /// The ledger's current time.
    pub timestamp: u64,
    /// The ledger's current sequence number.
    pub sequence: u32,
}

/// The escrow contract: its storage slot and the notifications it has emitted,
/// oldest first.
#[derive(Debug, PartialEq, Eq)]
pub struct RentEscrowContract {
    pub record: Option<EscrowData>,
    pub events: Vec<EscrowEvent>,
}

/// What a `RentEscrowContract` holds.
#[verifier::ext_equal]
pub struct ContractState {
    pub record: Option<EscrowRecord>,
    pub events: Seq<EscrowEvent>,
}

impl View for RentEscrowContract {
    type V = ContractState;

    open spec fn view(&self) -> ContractState {
        ContractState {
            record: match self.record {
                Some(data) => Some(data@),
                None => None,
            },
            events: self.events@,
        }
    }
}

/// Why an escrow cannot be created from these arguments, if it cannot.
pub open spec fn create_refusal(
    clock: LedgerClock,
    participants: Seq<Address>,
    shares: Seq<i128>,
    deadline: u64,
) -> Option<EscrowError> {
    if participants.len() == 0 {
        Some(EscrowError::NoParticipants)
    } else if participants.len() != shares.len() {
        Some(EscrowError::LengthMismatch)
    } else if deadline <= clock.timestamp {
        Some(EscrowError::DeadlineNotInFuture)
    } else if !running_total_fits(shares) {
        Some(EscrowError::RentOutOfRange)
    } else if sum_of_shares(shares) <= 0 {
        Some(EscrowError::NonPositiveTotal)
    } else {
        None
    }
}

/// The record of an escrow created from these arguments.
pub open spec fn created(
    clock: LedgerClock,
    creator: Address,
    landlord: Address,
    participants: Seq<Address>,
    shares: Seq<i128>,
    deadline: u64,
) -> EscrowRecord {
    EscrowRecord {
        id: clock.sequence as u64,
        creator,
        landlord,
        participants: enrolled(participants, shares),
        total_rent: sum_of_shares(shares) as i128,
        deposited_amount: 0,
        deadline,
        status: EscrowStatus::Active,
        created_at: clock.timestamp,
    }
}

impl ContractState {
    /// This state with one more notification emitted.
    pub open spec fn emit(self, event: EscrowEvent) -> ContractState {
        ContractState { record: self.record, events: self.events.push(event) }
    }

    /// This state with `record` in the slot, whatever the slot held.
    pub open spec fn store(self, record: EscrowRecord) -> ContractState {
        ContractState { record: Some(record), events: self.events }
    }

    /// The state after an escrow has been created from these arguments: the new
    /// record takes the slot, and its creation is notified.
    pub open spec fn initialize(
        self,
        clock: LedgerClock,
        creator: Address,
        landlord: Address,
        participants: Seq<Address>,
        shares: Seq<i128>,
        deadline: u64,
    ) -> ContractState {
        let record = created(clock, creator, landlord, participants, shares, deadline);
        self.store(record).emit(
            EscrowEvent::EscrowCreated {
                escrow_id: record.id,
                creator,
                total_rent: record.total_rent,
            },
        )
    }

    /// Why `who` cannot deposit at the time of `clock`, if that is so.
    pub open spec fn deposit_refusal(self, clock: LedgerClock, who: Seq<char>) -> Option<
        EscrowError,
    > {
        match self.record {
            None => Some(EscrowError::EscrowNotFound),
            Some(record) => record.deposit_refusal(clock.timestamp, who),
        }
    }

    /// The state after `participant` has deposited under the id `escrow_id`:
    /// the record holds the deposit, and the deposit is notified with the
    /// participant's share.
    pub open spec fn deposit(self, escrow_id: u64, participant: Address) -> ContractState
        recommends
            self.record is Some,
    {
        let record = self.record->0;
        self.store(record.with_deposit(participant@)).emit(
            EscrowEvent::DepositMade {
                escrow_id,
                participant,
                amount: record.participants[place_of(record.participants, participant@)].share_amount,
            },
        )
    }

    /// Why the funds cannot be released, if that is so.
    pub open spec fn release_refusal(self) -> Option<EscrowError> {
        match self.record {
            None => Some(EscrowError::EscrowNotFound),
            Some(record) => if record.releasable() {
                None
            } else {
                Some(EscrowError::NotFullyFunded)
            },
        }
    }

    /// The state after a release under the id `escrow_id`: the release is
    /// notified with the landlord and the deposited amount, and the record is
    /// as it was.
    pub open spec fn release(self, escrow_id: u64) -> ContractState
        recommends
            self.record is Some,
    {
        let record = self.record->0;
        self.emit(
            EscrowEvent::EscrowReleased {
                escrow_id,
                landlord: record.landlord,
                amount: record.deposited_amount,
            },
        )
    }

    /// What a reader is told of `who`: whether the first participant of that
    /// name has deposited and the share that it owes, or why there is no answer.
    pub open spec fn participant_status(self, who: Seq<char>) -> Result<(bool, i128), EscrowError> {
        match self.record {
            None => Err(EscrowError::EscrowNotFound),
            Some(record) => if has_member(record.participants, who) {
                let participant = record.participants[place_of(record.participants, who)];
                Ok((participant.deposited, participant.share_amount))
            } else {
                Err(EscrowError::ParticipantNotFound)
            },
        }
    }

    /// Whether the deposits may be refunded at the time of `clock`, or why
    /// there is no answer.
    pub open spec fn can_refund(self, clock: LedgerClock) -> Result<bool, EscrowError> {
        match self.record {
            None => Err(EscrowError::EscrowNotFound),
            Some(record) => Ok(record.refundable(clock.timestamp)),
        }
    }
}

impl RentEscrowContract {
    /// A contract with an empty slot that has emitted nothing.
    pub fn new() -> (contract: RentEscrowContract)
        ensures
            contract@ == (ContractState { record: None, events: Seq::empty() }),
    {
        RentEscrowContract { record: None, events: Vec::new() }
    }

    /// Creates the escrow and returns its id, the ledger's sequence number.
    ///
    /// The escrow is refused, and nothing is stored or emitted, when there is
    /// no participant, when there are not as many shares as participants, when
    /// the deadline is not in the future, when the shares cannot be added up in
    /// an `i128`, or when they add up to zero or less.
    pub fn initialize(
        &mut self,
        clock: &LedgerClock,
        creator: Address,
        landlord: Address,
        participants: Vec<Address>,
        shares: Vec<i128>,
        deadline: u64,
    ) -> (result: Result<u64, EscrowError>)
        ensures
            match result {
                Ok(escrow_id) => {
                    &&& create_refusal(*clock, participants@, shares@, deadline) is None
                    &&& escrow_id == clock.sequence
                    &&& final(self)@ == old(self)@.initialize(
                        *clock,
                        creator,
                        landlord,
                        participants@,
                        shares@,
                        deadline,
                    )
                    &&& final(self)@.record->0.wf()
                },
                Err(reason) => {
                    &&& create_refusal(*clock, participants@, shares@, deadline) == Some(reason)
                    &&& *final(self) == *old(self)
                },
            },
    {
        if participants.len() == 0 {
            return Err(EscrowError::NoParticipants);
        }
        if participants.len() != shares.len() {
            return Err(EscrowError::LengthMismatch);
        }
        if deadline <= clock.timestamp {
            return Err(EscrowError::DeadlineNotInFuture);
        }
        let mut total_rent: i128 = 0;
        let mut list: Vec<Participant> = Vec::new();
        let mut i: usize = 0;
        while i < participants.len()
            invariant
                *self == *old(self),
                i <= participants.len(),
                participants.len() == shares.len(),
                clock.timestamp < deadline,
                total_rent == sum_of_shares(shares@.take(i as int)),
                running_total_fits(shares@.take(i as int)),
                list@ == enrolled(participants@.take(i as int), shares@.take(i as int)),
            decreases participants.len() - i,
        {
            let share: i128 = shares[i];
            proof {
                let next = shares@.take(i + 1);
                assert(next.drop_last() =~= shares@.take(i as int));
                assert(sum_of_shares(next) == total_rent + share);
            }
            match total_rent.checked_add(share) {
                Some(sum) => {
                    total_rent = sum;
                },
                None => {
                    proof {
                        let sum = sum_of_shares(shares@.take(i + 1));
                        assert(sum < i128::MIN || sum > i128::MAX);
                        assert(!running_total_fits(shares@));
                    }
                    return Err(EscrowError::RentOutOfRange);
                },
            }
            list.push(
                Participant { address: participants[i].clone(), share_amount: share, deposited: false },
            );
            proof {
                let next = shares@.take(i + 1);
                assert forall|k: int| 0 <= k <= next.len() implies i128::MIN
                    <= #[trigger] sum_of_shares(next.take(k)) <= i128::MAX by {
                    if k <= i {
                        assert(next.take(k) =~= shares@.take(i as int).take(k));
                    } else {
                        assert(next.take(k) =~= next);
                    }
                }
                assert(list@ =~= enrolled(participants@.take(i + 1), shares@.take(i + 1)));
            }
            i += 1;
        }
        proof {
            assert(shares@.take(i as int) =~= shares@);
            assert(participants@.take(i as int) =~= participants@);
        }
        if total_rent <= 0 {
            return Err(EscrowError::NonPositiveTotal);
        }
        let escrow_id: u64 = clock.sequence as u64;
        let record = EscrowData {
            id: escrow_id,
            creator: creator.clone(),
            landlord,
            participants: list,
            total_rent,
            deposited_amount: 0,
            deadline,
            status: EscrowStatus::Active,
            created_at: clock.timestamp,
        };
        self.record = Some(record);
        self.events.push(EscrowEvent::EscrowCreated { escrow_id, creator, total_rent });
        proof {
            assert(self@ =~= old(self)@.initialize(
                *clock,
                creator,
                landlord,
                participants@,
                shares@,
                deadline,
            ));
            created_record_is_exact(*clock, creator, landlord, participants@, shares@, deadline);
        }
        Ok(escrow_id)
    }

    /// Records the deposit of `participant` and returns `true`.
    ///
    /// The caller has made sure that the call comes from `participant`. The
    /// deposit is refused, and nothing changes, when there is no record, when
    /// the escrow is not active, when the deadline has passed, when
    /// `participant` is not a participant or has deposited already, or when the
    /// deposited amount would leave the range of an `i128`. The id is not used
    /// to find the record: there is one slot. It is passed on in the
    /// notification.
    pub fn deposit(&mut self, clock: &LedgerClock, escrow_id: u64, participant: &Address) -> (result:
        Result<bool, EscrowError>)
        ensures
            match result {
                Ok(done) => {
                    &&& done
                    &&& old(self)@.deposit_refusal(*clock, participant@) is None
                    &&& final(self)@ == old(self)@.deposit(escrow_id, *participant)
                    &&& old(self)@.record->0.wf() ==> final(self)@.record->0.wf()
                },
                Err(reason) => {
                    &&& old(self)@.deposit_refusal(*clock, participant@) == Some(reason)
                    &&& *final(self) == *old(self)
                },
            },
    {
        let (place, amount) = match &self.record {
            None => {
                return Err(EscrowError::EscrowNotFound);
            },
            Some(record) => {
                if record.status != EscrowStatus::Active {
                    return Err(EscrowError::NotActive);
                }
                if clock.timestamp > record.deadline {
                    return Err(EscrowError::DeadlinePassed);
                }
                let place = match record.position_of(participant) {
                    None => {
                        return Err(EscrowError::ParticipantNotFound);
                    },
                    Some(place) => place,
                };
                if record.participants[place].deposited {
                    return Err(EscrowError::AlreadyDeposited);
                }
                match record.deposited_amount.checked_add(record.participants[place].share_amount) {
                    None => {
                        return Err(EscrowError::DepositOutOfRange);
                    },
                    Some(amount) => (place, amount),
                }
            },
        };
        let mut record = self.record.take().unwrap();
        let share: i128 = record.participants[place].share_amount;
        let payer = Participant {
            address: record.participants[place].address.clone(),
            share_amount: share,
            deposited: true,
        };
        record.participants.set(place, payer);
        record.deposited_amount = amount;
        if amount >= record.total_rent {
            record.status = EscrowStatus::FullyFunded;
        }
        self.record = Some(record);
        self.events.push(
            EscrowEvent::DepositMade { escrow_id, participant: participant.clone(), amount: share },
        );
        proof {
            assert(self@ =~= old(self)@.deposit(escrow_id, *participant));
            if old(self)@.record->0.wf() {
                deposit_keeps_record_well_formed(
                    old(self)@.record->0,
                    clock.timestamp,
                    participant@,
                );
            }
        }
        Ok(true)
    }

    /// Notifies the release of the funds to the landlord and returns `true`.
    ///
    /// The release is refused, and nothing is emitted, when there is no record
    /// or when the escrow is neither fully funded nor active with the total
    /// rent reached. The record is left as it is: no funds are moved and the
    /// status stays.
    pub fn release(&mut self, escrow_id: u64) -> (result: Result<bool, EscrowError>)
        ensures
            match result {
                Ok(done) => {
                    &&& done
                    &&& old(self)@.release_refusal() is None
                    &&& final(self)@ == old(self)@.release(escrow_id)
                },
                Err(reason) => {
                    &&& old(self)@.release_refusal() == Some(reason)
                    &&& *final(self) == *old(self)
                },
            },
    {
        let event = match &self.record {
            None => {
                return Err(EscrowError::EscrowNotFound);
            },
            Some(record) => {
                let funded = record.status == EscrowStatus::FullyFunded || (record.status
                    == EscrowStatus::Active && record.deposited_amount >= record.total_rent);
                if !funded {
                    return Err(EscrowError::NotFullyFunded);
                }
                EscrowEvent::EscrowReleased {
                    escrow_id,
                    landlord: record.landlord.clone(),
                    amount: record.deposited_amount,
                }
            },
        };
        self.events.push(event);
        proof {
            assert(self@ =~= old(self)@.release(escrow_id));
        }
        Ok(true)
    }

    /// A copy of the record, or `EscrowNotFound` when there is none.
    pub fn get_status(&self, escrow_id: u64) -> (result: Result<EscrowData, EscrowError>)
        ensures
            match result {
                Ok(data) => self@.record == Some(data@),
                Err(reason) => self@.record is None && reason == EscrowError::EscrowNotFound,
            },
    {
        match &self.record {
            None => Err(EscrowError::EscrowNotFound),
            Some(record) => Ok(record.clone()),
        }
    }

    /// Whether `participant` has deposited, and the share that it owes.
    ///
    /// Where several participants have that address, the first one answers.
    /// The result is `EscrowNotFound` when there is no record, and
    /// `ParticipantNotFound` when `participant` is not a participant.
    pub fn get_participant_status(&self, escrow_id: u64, participant: &Address) -> (result: Result<
        (bool, i128),
        EscrowError,
    >)
        ensures
            result == self@.participant_status(participant@),
    {
        match &self.record {
            None => Err(EscrowError::EscrowNotFound),
            Some(record) => match record.position_of(participant) {
                None => Err(EscrowError::ParticipantNotFound),
                Some(place) => {
                    Ok((record.participants[place].deposited, record.participants[place].share_amount))
                },
            },
        }
    }

    /// Whether the deposits may be refunded at the time of `clock`: the escrow
    /// is active, its deadline has passed and the total rent has not been
    /// reached. The result is `EscrowNotFound` when there is no record.
    pub fn can_refund(&self, clock: &LedgerClock, escrow_id: u64) -> (result: Result<
        bool,
        EscrowError,
    >)
        ensures
            result == self@.can_refund(*clock),
    {
        match &self.record {
            None => Err(EscrowError::EscrowNotFound),
            Some(record) => Ok(
                record.status == EscrowStatus::Active && clock.timestamp > record.deadline
                    && record.deposited_amount < record.total_rent,
            ),
        }
    }
}

} // verus!
