use crowdfunding::campaign::{Campaign, CrowdfundingError, DataKey};
use crowdfunding::ledger::CrowdfundingContract;
use soroban_sdk::testutils::Address as _;
use soroban_sdk::{Address, Env, String};

fn campaign(env: &Env, id: u32, raised: i128) -> Campaign {
    Campaign {
        id,
        owner: Address::generate(env),
        title: String::from_str(env, "Stored Project"),
        goal_amount: 10,
        current_amount_raised: raised,
    }
}

#[test]
fn test_create_campaign() {
    let env = Env::default();
    let mut contract = CrowdfundingContract::new();

    let owner = Address::generate(&env);
    let title = String::from_str(&env, "Test Blockchain Project");
    let goal_amount = 1000i128;

    let campaign_id = contract.create_campaign(owner.clone(), title.clone(), goal_amount);
    assert_eq!(campaign_id, 1);

    let campaigns = contract.get_campaigns();
    assert_eq!(campaigns.len(), 1);

    let campaign = campaigns.get(0).unwrap();
    assert_eq!(campaign.id, 1);
    assert_eq!(campaign.owner, owner);
    assert_eq!(campaign.title, title);
    assert_eq!(campaign.goal_amount, goal_amount);
    assert_eq!(campaign.current_amount_raised, 0);
}

#[test]
fn test_contribute_to_campaign() {
    let env = Env::default();
    let mut contract = CrowdfundingContract::new();

    let owner = Address::generate(&env);
    let title = String::from_str(&env, "Test Project for Contributions");
    let goal_amount = 1000i128;
    let campaign_id = contract.create_campaign(owner, title, goal_amount);

    let contribution_amount = 100i128;
    let result = contract.contribute(campaign_id, contribution_amount);
    assert!(result.unwrap());

    let updated_campaign = contract.get_campaign(campaign_id).unwrap();
    assert_eq!(updated_campaign.current_amount_raised, contribution_amount);
}

#[test]
fn test_multiple_campaigns() {
    let env = Env::default();
    let mut contract = CrowdfundingContract::new();

    let owner1 = Address::generate(&env);
    let owner2 = Address::generate(&env);

    let campaign_id1 =
        contract.create_campaign(owner1, String::from_str(&env, "First Project"), 500i128);
    let campaign_id2 =
        contract.create_campaign(owner2, String::from_str(&env, "Second Project"), 1500i128);

    assert_eq!(campaign_id1, 1);
    assert_eq!(campaign_id2, 2);

    let campaigns = contract.get_campaigns();
    assert_eq!(campaigns.len(), 2);

    assert_eq!(contract.get_campaign_count(), 2);
}

#[test]
fn ids_follow_creation_order() {
    let env = Env::default();
    let mut contract = CrowdfundingContract::new();
    assert_eq!(contract.get_next_campaign_id(), 1);
    for expected in 1u32..=5 {
        let id = contract.create_campaign(
            Address::generate(&env),
            String::from_str(&env, "Project"),
            100,
        );
        assert_eq!(id, expected);
        assert_eq!(contract.get_next_campaign_id(), expected + 1);
    }
    let ids: Vec<u32> = contract.get_campaigns().iter().map(|c| c.id).collect();
    assert_eq!(ids, vec![1, 2, 3, 4, 5]);
}

#[test]
fn count_equals_listing_length() {
    let env = Env::default();
    let mut contract = CrowdfundingContract::new();
    assert_eq!(contract.get_campaign_count(), 0);
    assert!(contract.get_campaigns().is_empty());
    for _ in 0..3 {
        contract.create_campaign(Address::generate(&env), String::from_str(&env, "P"), 1);
        assert_eq!(contract.get_campaign_count() as usize, contract.get_campaigns().len());
    }
}

#[test]
fn new_campaigns_have_raised_nothing() {
    let env = Env::default();
    let mut contract = CrowdfundingContract::new();
    contract.create_campaign(Address::generate(&env), String::from_str(&env, "A"), -5);
    contract.create_campaign(Address::generate(&env), String::from_str(&env, "B"), 0);
    for c in contract.get_campaigns() {
        assert_eq!(c.current_amount_raised, 0);
    }
    assert_eq!(contract.get_campaign(1).unwrap().goal_amount, -5);
}

#[test]
fn contribution_changes_only_its_campaign() {
    let env = Env::default();
    let mut contract = CrowdfundingContract::new();
    contract.create_campaign(Address::generate(&env), String::from_str(&env, "A"), 500);
    contract.create_campaign(Address::generate(&env), String::from_str(&env, "B"), 1500);
    assert_eq!(contract.contribute(2, 700), Ok(true));
    assert_eq!(contract.contribute(2, 900), Ok(true));
    assert_eq!(contract.get_campaign(1).unwrap().current_amount_raised, 0);
    let b = contract.get_campaign(2).unwrap();
    assert_eq!(b.current_amount_raised, 1600);
    assert_eq!(b.goal_amount, 1500);
    assert_eq!(b.id, 2);
}

#[test]
fn nonpositive_amount_is_refused() {
    let env = Env::default();
    let mut contract = CrowdfundingContract::new();
    contract.create_campaign(Address::generate(&env), String::from_str(&env, "A"), 500);
    assert_eq!(contract.contribute(1, 0), Err(CrowdfundingError::InvalidAmount));
    assert_eq!(contract.contribute(1, -10), Err(CrowdfundingError::InvalidAmount));
    assert_eq!(contract.contribute(99, -1), Err(CrowdfundingError::InvalidAmount));
    assert_eq!(contract.get_campaign(1).unwrap().current_amount_raised, 0);
    assert_eq!(contract.get_campaign_count(), 1);
}

#[test]
fn contribution_to_unknown_campaign_is_refused() {
    let env = Env::default();
    let mut contract = CrowdfundingContract::new();
    contract.create_campaign(Address::generate(&env), String::from_str(&env, "A"), 1000);
    let before = contract.get_campaign_count();
    assert_eq!(contract.contribute(99, 100), Err(CrowdfundingError::CampaignNotFound));
    assert_eq!(contract.contribute(0, 100), Err(CrowdfundingError::CampaignNotFound));
    assert_eq!(contract.get_campaign_count(), before);
    assert_eq!(contract.get_campaign(1).unwrap().current_amount_raised, 0);
}

#[test]
fn contribution_past_i128_range_is_refused() {
    let env = Env::default();
    let mut contract = CrowdfundingContract::new();
    contract.create_campaign(Address::generate(&env), String::from_str(&env, "A"), 1);
    assert_eq!(contract.contribute(1, i128::MAX), Ok(true));
    assert_eq!(contract.contribute(1, 1), Err(CrowdfundingError::AmountOverflow));
    assert_eq!(contract.get_campaign(1).unwrap().current_amount_raised, i128::MAX);
}

#[test]
fn lookup_finds_exactly_listed_ids() {
    let env = Env::default();
    let mut contract = CrowdfundingContract::new();
    assert!(contract.get_campaign(1).is_none());
    contract.create_campaign(Address::generate(&env), String::from_str(&env, "A"), 1);
    contract.create_campaign(Address::generate(&env), String::from_str(&env, "B"), 2);
    for id in 0u32..5 {
        let listed = contract.get_campaigns().iter().any(|c| c.id == id);
        let found = contract.get_campaign(id);
        assert_eq!(found.is_some(), listed);
        if let Some(c) = found {
            assert_eq!(c.id, id);
        }
    }
    assert!(contract.get_campaign(u32::MAX).is_none());
}

#[test]
fn load_uses_first_use_defaults() {
    let contract = CrowdfundingContract::load(None, None).unwrap();
    assert_eq!(contract.get_campaign_count(), 0);
    assert_eq!(contract.get_next_campaign_id(), 1);
}

#[test]
fn load_accepts_consistent_state() {
    let env = Env::default();
    let stored = vec![campaign(&env, 1, 5), campaign(&env, 2, 0)];
    let mut contract = CrowdfundingContract::load(Some(stored), Some(3)).unwrap();
    assert_eq!(contract.get_campaign(1).unwrap().current_amount_raised, 5);
    assert_eq!(contract.create_campaign(Address::generate(&env), String::from_str(&env, "C"), 9), 3);
    let (campaigns, next) = contract.into_stored();
    assert_eq!(campaigns.len(), 3);
    assert_eq!(campaigns[2].id, 3);
    assert_eq!(campaigns[2].goal_amount, 9);
    assert_eq!(next, 4);
}

#[test]
fn load_rejects_inconsistent_state() {
    let env = Env::default();
    assert!(CrowdfundingContract::load(Some(vec![campaign(&env, 1, 0)]), None).is_none());
    assert!(CrowdfundingContract::load(None, Some(2)).is_none());
    assert!(CrowdfundingContract::load(None, Some(0)).is_none());
    let gap = vec![campaign(&env, 1, 0), campaign(&env, 3, 0)];
    assert!(CrowdfundingContract::load(Some(gap), Some(3)).is_none());
    assert!(CrowdfundingContract::load(Some(vec![campaign(&env, 1, 0)]), Some(2)).is_some());
}

#[test]
fn stored_slots_are_distinct_keys() {
    assert_ne!(DataKey::Campaigns, DataKey::NextCampaignId);
    assert_eq!(DataKey::Campaigns, DataKey::Campaigns.clone());
}
