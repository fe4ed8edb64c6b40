use anchor_airdrop::{AccountId, Airdrop, ErrorCode};

fn id(tag: u8) -> AccountId {
    AccountId::new([tag; 32])
}

#[test]
fn account_ids_compare_by_all_bytes() {
    let mut bytes: [u8; 32] = [5u8; 32];
    let a = AccountId::new(bytes);
    assert_eq!(a, AccountId::new([5u8; 32]));
    bytes[31] = 6;
    assert_ne!(a, AccountId::new(bytes));
    bytes[31] = 5;
    bytes[0] = 4;
    assert_ne!(a, AccountId::new(bytes));
    bytes[0] = 5;
    bytes[17] = 0;
    assert_ne!(a, AccountId::new(bytes));
}

#[test]
fn account_id_gives_its_bytes_back() {
    let mut bytes: [u8; 32] = [0u8; 32];
    bytes[3] = 200;
    assert_eq!(AccountId::new(bytes).to_bytes(), bytes);
}

#[test]
fn new_campaign_is_well_formed() {
    let campaign = Airdrop::new(id(1), 42);
    assert!(campaign.is_well_formed());
    assert!(!campaign.is_full());
    assert!(!campaign.is_enrolled(&id(1)));
    assert_eq!(campaign.position(&id(1)), None);
}

#[test]
fn record_with_a_duplicate_is_not_well_formed() {
    let mut campaign = Airdrop::new(id(1), 42);
    campaign.roster = vec![id(2), id(3), id(2)];
    assert!(!campaign.is_well_formed());
    campaign.roster = vec![id(2), id(3), id(4)];
    assert!(campaign.is_well_formed());
    campaign.roster = vec![id(2), id(3), id(4), id(4)];
    assert!(!campaign.is_well_formed());
}

#[test]
fn record_over_capacity_is_not_well_formed() {
    let mut campaign = Airdrop::new(id(1), 42);
    campaign.capacity = 2;
    campaign.roster = vec![id(2), id(3)];
    assert!(campaign.is_well_formed());
    assert!(campaign.is_full());
    campaign.roster = vec![id(2), id(3), id(4)];
    assert!(!campaign.is_well_formed());
    assert!(campaign.is_full());
}

#[test]
fn position_finds_the_first_entry() {
    let mut campaign = Airdrop::new(id(1), 42);
    campaign.roster = vec![id(2), id(3), id(4), id(3)];
    assert_eq!(campaign.position(&id(2)), Some(0));
    assert_eq!(campaign.position(&id(3)), Some(1));
    assert_eq!(campaign.position(&id(4)), Some(2));
    assert_eq!(campaign.position(&id(5)), None);
    assert!(campaign.is_enrolled(&id(4)));
    assert!(!campaign.is_enrolled(&id(1)));
}

#[test]
fn every_error_has_its_message() {
    assert_eq!(ErrorCode::RosterFull.message(), "Userlist is full");
    assert_eq!(ErrorCode::ParticipantNotFound.message(), "User not in userlist");
    assert_eq!(ErrorCode::DuplicateParticipant.message(), "User already in userlist");
    assert_eq!(ErrorCode::EmptyRoster.message(), "Userlist is empty");
    assert_eq!(ErrorCode::AlreadyDistributed.message(), "Rewards already distributed");
    assert_eq!(ErrorCode::TransferFailed.message(), "Transfer failed");
}
