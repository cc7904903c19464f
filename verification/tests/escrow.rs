use rent_escrow::{
    Address, ErrorKind, EscrowError, EscrowStatus, LedgerClock, RentEscrowContract,
};

fn party(name: &str) -> Address {
    Address::from_str(name)
}

#[test]
fn test_initialize_escrow() {
    let clock = LedgerClock { timestamp: 0, sequence: 0 };
    let mut contract = RentEscrowContract::new();

    let creator = party("creator");
    let landlord = party("landlord");
    let participant1 = party("participant1");
    let participant2 = party("participant2");

    let participants = vec![participant1.clone(), participant2.clone()];
    let shares = vec![500_0000000_i128, 500_0000000_i128];
    let deadline = clock.timestamp + 86400;

    let escrow_id = contract
        .initialize(&clock, creator.clone(), landlord.clone(), participants, shares, deadline)
        .unwrap();

    let escrow = contract.get_status(escrow_id).unwrap();

    assert_eq!(escrow.id, escrow_id);
    assert_eq!(escrow.creator, creator);
    assert_eq!(escrow.landlord, landlord);
    assert_eq!(escrow.total_rent, 1000_0000000_i128);
    assert_eq!(escrow.status, EscrowStatus::Active);
    assert_eq!(escrow.participants.len(), 2);
}

#[test]
fn test_deposit() {
    let clock = LedgerClock { timestamp: 0, sequence: 0 };
    let mut contract = RentEscrowContract::new();

    let creator = party("creator");
    let landlord = party("landlord");
    let participant1 = party("participant1");

    let participants = vec![participant1.clone()];
    let shares = vec![500_0000000_i128];
    let deadline = clock.timestamp + 86400;

    let escrow_id =
        contract.initialize(&clock, creator, landlord, participants, shares, deadline).unwrap();

    let deposited = contract.deposit(&clock, escrow_id, &participant1).unwrap();
    assert!(deposited);

    let (has_deposited, share) =
        contract.get_participant_status(escrow_id, &participant1).unwrap();
    assert!(has_deposited);
    assert_eq!(share, 500_0000000_i128);

    let escrow = contract.get_status(escrow_id).unwrap();
    assert_eq!(escrow.deposited_amount, 500_0000000_i128);
    assert_eq!(escrow.status, EscrowStatus::FullyFunded);
}

#[test]
fn test_double_deposit_rejected() {
    let clock = LedgerClock { timestamp: 0, sequence: 0 };
    let mut contract = RentEscrowContract::new();

    let creator = party("creator");
    let landlord = party("landlord");
    let participant1 = party("participant1");

    let participants = vec![participant1.clone()];
    let shares = vec![500_0000000_i128];
    let deadline = clock.timestamp + 86400;

    let escrow_id =
        contract.initialize(&clock, creator, landlord, participants, shares, deadline).unwrap();

    assert_eq!(contract.deposit(&clock, escrow_id, &participant1), Ok(true));

    // The only share is in, so the escrow has stopped collecting.
    let second = contract.deposit(&clock, escrow_id, &participant1);
    assert_eq!(second, Err(EscrowError::NotActive));
    assert_eq!(second.unwrap_err().kind(), ErrorKind::InvalidState);
}

#[test]
fn test_double_deposit_while_active_rejected() {
    let clock = LedgerClock { timestamp: 0, sequence: 0 };
    let mut contract = RentEscrowContract::new();

    let participant1 = party("participant1");
    let participants = vec![participant1.clone(), party("participant2")];
    let shares = vec![500_0000000_i128, 500_0000000_i128];
    let deadline = clock.timestamp + 86400;

    let escrow_id = contract
        .initialize(&clock, party("creator"), party("landlord"), participants, shares, deadline)
        .unwrap();

    contract.deposit(&clock, escrow_id, &participant1).unwrap();

    let second = contract.deposit(&clock, escrow_id, &participant1);
    assert_eq!(second, Err(EscrowError::AlreadyDeposited));
    assert_eq!(second.unwrap_err().message(), "Participant already deposited");
}

#[test]
fn test_can_refund() {
    let mut clock = LedgerClock { timestamp: 0, sequence: 0 };
    let mut contract = RentEscrowContract::new();

    let creator = party("creator");
    let landlord = party("landlord");
    let participant1 = party("participant1");

    let participants = vec![participant1.clone()];
    let shares = vec![500_0000000_i128];
    let deadline = clock.timestamp + 100;

    let escrow_id =
        contract.initialize(&clock, creator, landlord, participants, shares, deadline).unwrap();

    assert!(!contract.can_refund(&clock, escrow_id).unwrap());

    clock.timestamp = deadline + 1000;

    assert!(contract.can_refund(&clock, escrow_id).unwrap());
}

#[test]
#[should_panic(expected = "Deadline must be in the future")]
fn test_past_deadline_panics() {
    let clock = LedgerClock { timestamp: 5000, sequence: 0 };
    let mut contract = RentEscrowContract::new();

    let creator = party("creator");
    let landlord = party("landlord");
    let participant1 = party("participant1");

    let participants = vec![participant1.clone()];
    let shares = vec![500_0000000_i128];
    let deadline = clock.timestamp - 1000;

    if let Err(reason) =
        contract.initialize(&clock, creator, landlord, participants, shares, deadline)
    {
        panic!("{}", reason.message());
    }
}
