use vstd::prelude::*;
use crate::campaign::{Campaign, CrowdfundingError};
use crate::ledger::CampaignLedger;

verus! {

/// The state reached from the empty registry by creating one campaign per
/// entry of `requests` (owner, title, goal), in order.
pub open spec fn replay_creates(
    requests: Seq<(soroban_sdk::Address, soroban_sdk::String, i128)>,
) -> CampaignLedger
    decreases requests.len(),
{
    if requests.len() == 0 {
        CampaignLedger::empty()
    } else {
        let last = requests.last();
        replay_creates(requests.drop_last()).created(last.0, last.1, last.2)
    }
}

proof fn lemma_replay_shape(requests: Seq<(soroban_sdk::Address, soroban_sdk::String, i128)>)
    requires
        requests.len() < u32::MAX,
    ensures
        replay_creates(requests).well_formed(),
        replay_creates(requests).count() == requests.len(),
        forall|i: int|
            0 <= i < requests.len() ==> {
                let c = #[trigger] replay_creates(requests).campaigns[i];
                &&& c.owner == requests[i].0
                &&& c.title == requests[i].1
                &&& c.goal_amount == requests[i].2
                &&& c.current_amount_raised == 0
            },
    decreases requests.len(),
{
    if requests.len() > 0 {
        let prefix = requests.drop_last();
        lemma_replay_shape(prefix);
        let s = replay_creates(requests);
        let p = replay_creates(prefix);
        assert forall|i: int| 0 <= i < requests.len() implies #[trigger] s.campaigns[i].id == i + 1 by {
            if i < prefix.len() {
                assert(s.campaigns[i] == p.campaigns[i]);
            }
        }
        assert forall|i: int| 0 <= i < requests.len() implies {
            let c = #[trigger] s.campaigns[i];
            &&& c.owner == requests[i].0
            &&& c.title == requests[i].1
            &&& c.goal_amount == requests[i].2
            &&& c.current_amount_raised == 0
        } by {
            if i < prefix.len() {
                assert(s.campaigns[i] == p.campaigns[i]);
                assert(prefix[i] == requests[i]);
            }
        }
    }
}

/// Successive creations on a fresh registry hand out the identifiers
/// 1, 2, 3, ... in call order, with no gap and no repeat: the creation made
/// after the first `k` ones returns `k + 1` (a creation returns the state's
/// next identifier), and the campaign at position `i` has identifier `i + 1`.
/// A creation is only possible while the next identifier is below
/// `u32::MAX`, which bounds the number of creations.
pub proof fn lemma_sequential_ids(requests: Seq<(soroban_sdk::Address, soroban_sdk::String, i128)>)
    requires
        requests.len() < u32::MAX,
    ensures
        forall|k: int|
            0 <= k <= requests.len() ==> #[trigger] replay_creates(requests.take(k)).next_campaign_id
                == k + 1,
        replay_creates(requests).count() == requests.len(),
        forall|i: int|
            0 <= i < requests.len() ==> #[trigger] replay_creates(requests).campaigns[i].id == i + 1,
{
    lemma_replay_shape(requests);
    assert forall|k: int| 0 <= k <= requests.len() implies #[trigger] replay_creates(
        requests.take(k),
    ).next_campaign_id == k + 1 by {
        lemma_replay_shape(requests.take(k));
    }
}

/// A campaign to which nothing has been contributed has raised nothing:
/// after any sequence of creations alone, every campaign's total is 0.
pub proof fn lemma_fresh_campaigns_raised_nothing(
    requests: Seq<(soroban_sdk::Address, soroban_sdk::String, i128)>,
)
    requires
        requests.len() < u32::MAX,
    ensures
        forall|i: int|
            0 <= i < replay_creates(requests).campaigns.len()
                ==> #[trigger] replay_creates(requests).campaigns[i].current_amount_raised == 0,
{
    lemma_replay_shape(requests);
}

/// The campaign count is the length of the full listing.
pub proof fn lemma_count_is_listing_length(l: CampaignLedger)
    ensures
        l.count() == l.campaigns.len(),
{
}

/// A successful contribution raises the target campaign's total by exactly
/// the amount, changes none of its other fields, and changes no other
/// campaign.
pub proof fn lemma_contribution_adds_amount(l: CampaignLedger, id: u32, amount: i128)
    requires
        l.well_formed(),
        l.contributed(id, amount) is Ok,
    ensures
        ({
            let after = l.contributed(id, amount)->Ok_0;
            let before_c = l.lookup(id)->0;
            let after_c = after.lookup(id)->0;
            &&& after.well_formed()
            &&& l.lookup(id) is Some
            &&& after.lookup(id) is Some
            &&& after_c.current_amount_raised == before_c.current_amount_raised + amount
            &&& after_c.id == before_c.id
            &&& after_c.owner == before_c.owner
            &&& after_c.title == before_c.title
            &&& after_c.goal_amount == before_c.goal_amount
            &&& after.campaigns.len() == l.campaigns.len()
            &&& after.next_campaign_id == l.next_campaign_id
            &&& forall|i: int|
                0 <= i < l.campaigns.len() && l.campaigns[i].id != id ==> #[trigger] after.campaigns[i]
                    == l.campaigns[i]
        }),
{
    let after = l.contributed(id, amount)->Ok_0;
    assert forall|i: int| 0 <= i < after.campaigns.len() implies #[trigger] after.campaigns[i].id
        == i + 1 by {
        assert(l.campaigns[i].id == i + 1);
    }
}

/// A contribution of zero or less is refused with `InvalidAmount`; the state
/// is then left unchanged (see `contribute`).
pub proof fn lemma_nonpositive_amount_refused(l: CampaignLedger, id: u32, amount: i128)
    requires
        amount <= 0,
    ensures
        l.contributed(id, amount) == Err::<CampaignLedger, CrowdfundingError>(
            CrowdfundingError::InvalidAmount,
        ),
{
}

/// A positive contribution to an identifier that no campaign has is refused
/// with `CampaignNotFound`; the state is then left unchanged (see
/// `contribute`).
pub proof fn lemma_unknown_campaign_refused(l: CampaignLedger, id: u32, amount: i128)
    requires
        l.well_formed(),
        amount > 0,
        !l.contains_id(id),
    ensures
        l.contributed(id, amount) == Err::<CampaignLedger, CrowdfundingError>(
            CrowdfundingError::CampaignNotFound,
        ),
{
    if 1 <= id <= l.campaigns.len() {
        assert(l.campaigns[id - 1].id == id);
    }
}

/// Looking up an identifier yields a campaign exactly when that campaign
/// appears in the full listing with that identifier.
pub proof fn lemma_lookup_matches_listing(l: CampaignLedger, id: u32, c: Campaign)
    requires
        l.well_formed(),
    ensures
        l.lookup(id) == Some(c) <==> (c.id == id && l.campaigns.contains(c)),
        l.lookup(id) is Some <==> l.contains_id(id),
{
    if 1 <= id <= l.campaigns.len() {
        assert(l.campaigns[id - 1].id == id);
    }
    if c.id == id && l.campaigns.contains(c) {
        let i = choose|i: int| 0 <= i < l.campaigns.len() && l.campaigns[i] == c;
        assert(l.campaigns[i].id == i + 1);
    }
    if l.contains_id(id) {
        let i = choose|i: int| 0 <= i < l.campaigns.len() && #[trigger] l.campaigns[i].id == id;
        assert(l.campaigns[i].id == i + 1);
    }
}

} // verus!
