use anchor_airdrop::{distribute, AccountId, Airdrop, Distribute, ErrorCode, Payout};

fn id(tag: u8) -> AccountId {
    AccountId::new([tag; 32])
}

fn campaign_with(pool: u64, tags: &[u8]) -> Airdrop {
    let mut campaign = Airdrop::new(id(200), pool);
    for tag in tags {
        campaign.roster.push(id(*tag));
    }
    campaign
}

#[test]
fn pool_of_100_over_3_participants_pays_33_each() {
    let mut ctx = Distribute { campaign: campaign_with(100, &[1, 2, 3]) };
    let list = distribute(&mut ctx).unwrap();
    assert_eq!(
        list,
        vec![
            Payout { recipient: id(1), amount: 33 },
            Payout { recipient: id(2), amount: 33 },
            Payout { recipient: id(3), amount: 33 },
        ]
    );
    let paid: u64 = list.iter().map(|p| p.amount).sum();
    assert_eq!(paid, 99u64);
    assert_eq!(ctx.campaign.reward_pool_amount - paid, 1u64);
    assert_eq!(ctx.campaign.reward_pool_amount, 100u64);
    assert!(ctx.campaign.distributed);
    assert_eq!(ctx.campaign.roster, vec![id(1), id(2), id(3)]);
}

#[test]
fn pool_of_zero_pays_zero_to_everyone() {
    let mut ctx = Distribute { campaign: campaign_with(0, &[4, 5]) };
    let list = distribute(&mut ctx).unwrap();
    assert_eq!(
        list,
        vec![Payout { recipient: id(4), amount: 0 }, Payout { recipient: id(5), amount: 0 }]
    );
}

#[test]
fn empty_roster_fails_with_empty_roster() {
    let mut ctx = Distribute { campaign: campaign_with(100, &[]) };
    let before = ctx.campaign.clone();
    assert_eq!(distribute(&mut ctx), Err(ErrorCode::EmptyRoster));
    assert_eq!(ctx.campaign, before);
    assert!(!ctx.campaign.distributed);
}

#[test]
fn empty_roster_is_reported_even_after_a_distribution() {
    let mut campaign = campaign_with(100, &[]);
    campaign.distributed = true;
    let mut ctx = Distribute { campaign };
    assert_eq!(distribute(&mut ctx), Err(ErrorCode::EmptyRoster));
    assert!(ctx.campaign.distributed);
}

#[test]
fn second_distribution_fails_with_already_distributed() {
    let mut ctx = Distribute { campaign: campaign_with(10, &[1, 2]) };
    assert!(distribute(&mut ctx).is_ok());
    let before = ctx.campaign.clone();
    assert_eq!(distribute(&mut ctx), Err(ErrorCode::AlreadyDistributed));
    assert_eq!(ctx.campaign, before);
}

#[test]
fn single_participant_gets_the_whole_pool() {
    let mut ctx = Distribute { campaign: campaign_with(u64::MAX, &[9]) };
    let list = distribute(&mut ctx).unwrap();
    assert_eq!(list, vec![Payout { recipient: id(9), amount: u64::MAX }]);
}

#[test]
fn pool_smaller_than_the_roster_pays_nothing() {
    let mut ctx = Distribute { campaign: campaign_with(2, &[1, 2, 3]) };
    let list = distribute(&mut ctx).unwrap();
    assert_eq!(list.len(), 3);
    assert!(list.iter().all(|p| p.amount == 0));
}

#[test]
fn pool_that_divides_evenly_leaves_no_remainder() {
    let mut ctx = Distribute { campaign: campaign_with(1_000, &[1, 2, 3, 4, 5, 6, 7, 8, 9, 10]) };
    let list = distribute(&mut ctx).unwrap();
    assert_eq!(list.len(), 10);
    let paid: u64 = list.iter().map(|p| p.amount).sum();
    assert_eq!(paid, 1_000u64);
    assert_eq!(list[7], Payout { recipient: id(8), amount: 100 });
}

#[test]
fn payouts_follow_roster_order() {
    let mut ctx = Distribute { campaign: campaign_with(7, &[30, 10, 20]) };
    let list = distribute(&mut ctx).unwrap();
    let recipients: Vec<AccountId> = list.iter().map(|p| p.recipient).collect();
    assert_eq!(recipients, vec![id(30), id(10), id(20)]);
    assert!(list.iter().all(|p| p.amount == 2));
}
