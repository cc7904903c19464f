//! The escrow record, its participants and the notifications it gives rise to.

use vstd::prelude::*;
use crate::address::Address;
use crate::error::EscrowError;

verus! {

/// Where an escrow stands in its life.
///
/// A new escrow is `Active`. It becomes `FullyFunded` with the deposit that
/// brings the deposited amount up to the total rent. The other states are
/// reserved: no operation of this crate enters them.
#[derive(Clone, Copy, Debug, PartialEq, Eq, Structural)]
pub enum EscrowStatus {
    /// Collecting deposits.
    Active,
    /// Every share has been deposited.
    FullyFunded,
    /// The funds have gone to the landlord.
    Released,
    /// The deposits are being returned.
    Refunding,
    /// The deposits have been returned.
    Refunded,
    /// The parties disagree.
    Disputed,
}

/// One party that owes a share of the rent.
#[derive(Debug, PartialEq, Eq)]
pub struct Participant {
    /// Who owes the share.
    pub address: Address,
    /// What this party owes, in the smallest unit of the currency.
    pub share_amount: i128,
    /// Whether the share has been deposited.
    pub deposited: bool,
}

impl Clone for Participant {
    fn clone(&self) -> (copy: Participant)
        ensures
            copy == *self,
    {
        Participant {
            address: self.address.clone(),
            share_amount: self.share_amount,
            deposited: self.deposited,
        }
    }
}

/// The escrow as it is stored.
#[derive(Debug, PartialEq, Eq)]
pub struct EscrowData {
    /// The ledger's sequence number when the escrow was created.
    pub id: u64,
    /// Who created the escrow.
    pub creator: Address,
    /// Who receives the rent.
    pub landlord: Address,
    /// Who owes a share, in the order given at creation.
    pub participants: Vec<Participant>,
    /// The sum of all shares.
    pub total_rent: i128,
    /// The sum of the shares deposited so far.
    pub deposited_amount: i128,
    /// The ledger time after which no deposit is accepted.
    pub deadline: u64,
    /// Where the escrow stands.
    pub status: EscrowStatus,
    /// The ledger time when the escrow was created.
    pub created_at: u64,
}

/// What an `EscrowData` holds, field for field, with its participants as a
/// sequence.
#[verifier::ext_equal]
pub struct EscrowRecord {
    pub id: u64,
    pub creator: Address,
    pub landlord: Address,
    pub participants: Seq<Participant>,
    pub total_rent: i128,
    pub deposited_amount: i128,
    pub deadline: u64,
    pub status: EscrowStatus,
    pub created_at: u64,
}

impl View for EscrowData {
    type V = EscrowRecord;

    open spec fn view(&self) -> EscrowRecord {
        EscrowRecord {
            id: self.id,
            creator: self.creator,
            landlord: self.landlord,
            participants: self.participants@,
            total_rent: self.total_rent,
            deposited_amount: self.deposited_amount,
            deadline: self.deadline,
            status: self.status,
            created_at: self.created_at,
        }
    }
}

/// A notification that an operation gives rise to.
#[derive(Debug, PartialEq, Eq)]
pub enum EscrowEvent {
    /// An escrow was created.
    EscrowCreated { escrow_id: u64, creator: Address, total_rent: i128 },
    /// A participant deposited its share.
    DepositMade { escrow_id: u64, participant: Address, amount: i128 },
    /// The deposited amount was released to the landlord.
    EscrowReleased { escrow_id: u64, landlord: Address, amount: i128 },
    /// A deposit was returned to a participant. No operation of this crate
    /// emits it.
    RefundProcessed { escrow_id: u64, participant: Address, amount: i128 },
}

/// The sum of `shares`, as a mathematical integer.
pub open spec fn sum_of_shares(shares: Seq<i128>) -> int
    decreases shares.len(),
{
    if shares.len() == 0 {
        0
    } else {
        sum_of_shares(shares.drop_last()) + shares.last()
    }
}

/// Whether the sum of every prefix of `shares` is within the range of an `i128`.
pub open spec fn running_total_fits(shares: Seq<i128>) -> bool {
    forall|k: int|
        0 <= k <= shares.len() ==> i128::MIN <= #[trigger] sum_of_shares(shares.take(k))
            <= i128::MAX
}

/// The sum of what all of `participants` owe.
pub open spec fn total_owed(participants: Seq<Participant>) -> int
    decreases participants.len(),
{
    if participants.len() == 0 {
        0
    } else {
        total_owed(participants.drop_last()) + participants.last().share_amount
    }
}

/// The sum of what those of `participants` who have deposited owed.
pub open spec fn total_deposited(participants: Seq<Participant>) -> int
    decreases participants.len(),
{
    if participants.len() == 0 {
        0
    } else {
        total_deposited(participants.drop_last()) + if participants.last().deposited {
            participants.last().share_amount as int
        } else {
            0
        }
    }
}

/// The participants of a new escrow: one for each address, with the share at
/// the same place in `shares`, none of them having deposited.
pub open spec fn enrolled(addresses: Seq<Address>, shares: Seq<i128>) -> Seq<Participant>
    recommends
        addresses.len() == shares.len(),
{
    Seq::new(
        addresses.len(),
        |i: int| Participant { address: addresses[i], share_amount: shares[i], deposited: false },
    )
}

/// Whether the participant at place `i` of `participants` is the party `who`.
pub open spec fn stands_at(participants: Seq<Participant>, who: Seq<char>, i: int) -> bool {
    0 <= i < participants.len() && participants[i].address@ == who
}

/// Whether `who` is one of `participants`.
pub open spec fn has_member(participants: Seq<Participant>, who: Seq<char>) -> bool {
    exists|i: int| stands_at(participants, who, i)
}

/// Whether `i` is the first place of `participants` at which `who` stands.
pub open spec fn first_stands_at(participants: Seq<Participant>, who: Seq<char>, i: int) -> bool {
    stands_at(participants, who, i) && forall|j: int| 0 <= j < i ==> !stands_at(participants, who, j)
}

/// The first place of `participants` at which `who` stands, where `who` is one
/// of them.
pub open spec fn place_of(participants: Seq<Participant>, who: Seq<char>) -> int
    recommends
        has_member(participants, who),
{
    choose|i: int| first_stands_at(participants, who, i)
}

impl EscrowRecord {
    /// Whether the deposited amount has reached the total rent.
    pub open spec fn is_funded(self) -> bool {
        self.deposited_amount >= self.total_rent
    }

    /// What holds of every record that the operations of this crate produce.
    pub open spec fn wf(self) -> bool {
        &&& self.participants.len() > 0
        &&& self.total_rent == total_owed(self.participants)
        &&& self.deposited_amount == total_deposited(self.participants)
        &&& self.total_rent > 0
        &&& self.created_at < self.deadline
        &&& self.status == if self.is_funded() {
            EscrowStatus::FullyFunded
        } else {
            EscrowStatus::Active
        }
    }

    /// Why `who` cannot deposit at the time `now`, if that is so.
    pub open spec fn deposit_refusal(self, now: u64, who: Seq<char>) -> Option<EscrowError> {
        if self.status != EscrowStatus::Active {
            Some(EscrowError::NotActive)
        } else if now > self.deadline {
            Some(EscrowError::DeadlinePassed)
        } else if !has_member(self.participants, who) {
            Some(EscrowError::ParticipantNotFound)
        } else if self.participants[place_of(self.participants, who)].deposited {
            Some(EscrowError::AlreadyDeposited)
        } else if !self.can_hold(self.participants[place_of(self.participants, who)].share_amount) {
            Some(EscrowError::DepositOutOfRange)
        } else {
            None
        }
    }

    /// Whether the deposited amount, with `share` added, is within the range of
    /// an `i128`.
    pub open spec fn can_hold(self, share: i128) -> bool {
        i128::MIN <= self.deposited_amount + share <= i128::MAX
    }

    /// This record after `who` has deposited: the first participant of that
    /// name has deposited, the deposited amount has grown by that participant's
    /// share, and the escrow is fully funded if the amount has reached the
    /// total rent. Nothing else has changed.
    pub open spec fn with_deposit(self, who: Seq<char>) -> EscrowRecord
        recommends
            has_member(self.participants, who),
    {
        let place = place_of(self.participants, who);
        let payer = self.participants[place];
        let amount = (self.deposited_amount + payer.share_amount) as i128;
        EscrowRecord {
            participants: self.participants.update(
                place,
                Participant {
                    address: payer.address,
                    share_amount: payer.share_amount,
                    deposited: true,
                },
            ),
            deposited_amount: amount,
            status: if amount >= self.total_rent {
                EscrowStatus::FullyFunded
            } else {
                self.status
            },
            ..self
        }
    }

    /// Whether the funds of this record may be released to the landlord.
    pub open spec fn releasable(self) -> bool {
        self.status == EscrowStatus::FullyFunded || (self.status == EscrowStatus::Active
            && self.is_funded())
    }

    /// Whether the deposits of this record may be refunded at the time `now`:
    /// the escrow is still collecting, its deadline has passed, and the total
    /// rent has not been reached.
    pub open spec fn refundable(self, now: u64) -> bool {
        self.status == EscrowStatus::Active && now > self.deadline && !self.is_funded()
    }
}

/// A party has one first place only.
pub proof fn lemma_first_place(participants: Seq<Participant>, who: Seq<char>, i: int)
    requires
        first_stands_at(participants, who, i),
    ensures
        has_member(participants, who),
        place_of(participants, who) == i,
{
    let j = place_of(participants, who);
    assert(first_stands_at(participants, who, j));
    if j < i {
        assert(!stands_at(participants, who, j));
    }
    if i < j {
        assert(!stands_at(participants, who, i));
    }
}

/// A party that stands somewhere has a first place.
proof fn lemma_has_first_place(participants: Seq<Participant>, who: Seq<char>, i: int)
    requires
        stands_at(participants, who, i),
    ensures
        exists|j: int| first_stands_at(participants, who, j),
    decreases i,
{
    if exists|j: int| 0 <= j < i && stands_at(participants, who, j) {
        let j = choose|j: int| 0 <= j < i && stands_at(participants, who, j);
        lemma_has_first_place(participants, who, j);
    } else {
        assert(first_stands_at(participants, who, i));
    }
}

/// The place of a member is the first place at which it stands.
pub proof fn lemma_place_of_member(participants: Seq<Participant>, who: Seq<char>)
    requires
        has_member(participants, who),
    ensures
        first_stands_at(participants, who, place_of(participants, who)),
{
    let i = choose|i: int| stands_at(participants, who, i);
    lemma_has_first_place(participants, who, i);
}

/// New participants owe the sum of the shares and have deposited nothing.
pub proof fn lemma_enrolled_totals(addresses: Seq<Address>, shares: Seq<i128>)
    requires
        addresses.len() == shares.len(),
    ensures
        total_owed(enrolled(addresses, shares)) == sum_of_shares(shares),
        total_deposited(enrolled(addresses, shares)) == 0,
    decreases shares.len(),
{
    if shares.len() > 0 {
        lemma_enrolled_totals(addresses.drop_last(), shares.drop_last());
        assert(enrolled(addresses, shares).drop_last() =~= enrolled(
            addresses.drop_last(),
            shares.drop_last(),
        ));
    }
}

/// Marking the participant at place `i` as having deposited leaves what is
/// owed as it was, and adds that participant's share to what is deposited.
pub proof fn lemma_deposit_totals(participants: Seq<Participant>, i: int)
    requires
        0 <= i < participants.len(),
        !participants[i].deposited,
    ensures
        total_owed(
            participants.update(
                i,
                Participant {
                    address: participants[i].address,
                    share_amount: participants[i].share_amount,
                    deposited: true,
                },
            ),
        ) == total_owed(participants),
        total_deposited(
            participants.update(
                i,
                Participant {
                    address: participants[i].address,
                    share_amount: participants[i].share_amount,
                    deposited: true,
                },
            ),
        ) == total_deposited(participants) + participants[i].share_amount,
    decreases participants.len(),
{
    let payer = Participant {
        address: participants[i].address,
        share_amount: participants[i].share_amount,
        deposited: true,
    };
    let after = participants.update(i, payer);
    if i == participants.len() - 1 {
        assert(after.drop_last() =~= participants.drop_last());
    } else {
        lemma_deposit_totals(participants.drop_last(), i);
        assert(after.drop_last() =~= participants.drop_last().update(i, payer));
    }
}

/// Where no share is negative, what is deposited lies between zero and what
/// is owed.
pub proof fn lemma_deposited_within_owed(participants: Seq<Participant>)
    requires
        forall|i: int| 0 <= i < participants.len() ==> participants[i].share_amount >= 0,
    ensures
        0 <= total_deposited(participants) <= total_owed(participants),
    decreases participants.len(),
{
    if participants.len() > 0 {
        lemma_deposited_within_owed(participants.drop_last());
    }
}

impl EscrowData {
    /// The first place at which `who` stands among the participants, if any.
    pub fn position_of(&self, who: &Address) -> (place: Option<usize>)
        ensures
            match place {
                Some(i) => has_member(self@.participants, who@) && i == place_of(
                    self@.participants,
                    who@,
                ) && i < self.participants.len(),
                None => !has_member(self@.participants, who@),
            },
    {
        let mut i: usize = 0;
        while i < self.participants.len()
            invariant
                i <= self.participants.len(),
                forall|j: int| 0 <= j < i ==> !stands_at(self.participants@, who@, j),
            decreases self.participants.len() - i,
        {
            if self.participants[i].address.same_as(who) {
                proof {
                    lemma_first_place(self@.participants, who@, i as int);
                }
                return Some(i);
            }
            i += 1;
        }
        None
    }
}

impl Clone for EscrowData {
    fn clone(&self) -> (copy: EscrowData)
        ensures
            copy@ == self@,
    {
        let mut participants: Vec<Participant> = Vec::new();
        let mut i: usize = 0;
        while i < self.participants.len()
            invariant
                i <= self.participants.len(),
                participants@ == self.participants@.take(i as int),
            decreases self.participants.len() - i,
        {
            participants.push(self.participants[i].clone());
            proof {
                assert(participants@ =~= self.participants@.take(i + 1));
            }
            i += 1;
        }
        proof {
            assert(self.participants@.take(i as int) =~= self.participants@);
        }
        EscrowData {
            id: self.id,
            creator: self.creator.clone(),
            landlord: self.landlord.clone(),
            participants,
            total_rent: self.total_rent,
            deposited_amount: self.deposited_amount,
            deadline: self.deadline,
            status: self.status,
            created_at: self.created_at,
        }
    }
}

impl Clone for EscrowEvent {
    fn clone(&self) -> (copy: EscrowEvent)
        ensures
            copy == *self,
    {
        match self {
            EscrowEvent::EscrowCreated { escrow_id, creator, total_rent } => {
                EscrowEvent::EscrowCreated {
                    escrow_id: *escrow_id,
                    creator: creator.clone(),
                    total_rent: *total_rent,
                }
            },
            EscrowEvent::DepositMade { escrow_id, participant, amount } => {
                EscrowEvent::DepositMade {
                    escrow_id: *escrow_id,
                    participant: participant.clone(),
                    amount: *amount,
                }
            },
            EscrowEvent::EscrowReleased { escrow_id, landlord, amount } => {
                EscrowEvent::EscrowReleased {
                    escrow_id: *escrow_id,
                    landlord: landlord.clone(),
                    amount: *amount,
                }
            },
            EscrowEvent::RefundProcessed { escrow_id, participant, amount } => {
                EscrowEvent::RefundProcessed {
                    escrow_id: *escrow_id,
                    participant: participant.clone(),
                    amount: *amount,
                }
            },
        }
    }
}

} // verus!
