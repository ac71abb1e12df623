use vstd::prelude::*;
use crate::campaign::{Campaign, CrowdfundingError};

verus! {

/// The abstract state of the registry: the campaigns in creation order and
/// the identifier that the next created campaign receives.
pub struct CampaignLedger {
    pub campaigns: Seq<Campaign>,
    pub next_campaign_id: int,
}

impl CampaignLedger {
    /// The state before any campaign exists.
    pub open spec fn empty() -> CampaignLedger {
        CampaignLedger { campaigns: Seq::empty(), next_campaign_id: 1 }
    }

    /// Identifiers are handed out as 1, 2, 3, ... in creation order and
    /// nothing is ever removed, so the campaign at position `i` has
    /// identifier `i + 1` and the next identifier is one past the last.
    pub open spec fn well_formed(self) -> bool {
        &&& self.next_campaign_id == self.campaigns.len() + 1
        &&& forall|i: int| 0 <= i < self.campaigns.len() ==> #[trigger] self.campaigns[i].id == i + 1
    }

    /// Some campaign of the collection has identifier `id`.
    pub open spec fn contains_id(self, id: u32) -> bool {
        exists|i: int| 0 <= i < self.campaigns.len() && #[trigger] self.campaigns[i].id == id
    }

    /// The campaign with identifier `id`, if there is one (in a well-formed
    /// state it stands at position `id - 1`).
    pub open spec fn lookup(self, id: u32) -> Option<Campaign> {
        if 1 <= id <= self.campaigns.len() {
            Some(self.campaigns[id - 1])
        } else {
            None
        }
    }

    /// The number of campaigns.
    pub open spec fn count(self) -> nat {
        self.campaigns.len()
    }

    /// The campaign that `created` appends.
    pub open spec fn new_campaign(
        self,
        owner: soroban_sdk::Address,
        title: soroban_sdk::String,
        goal_amount: i128,
    ) -> Campaign {
        Campaign {
            id: self.next_campaign_id as u32,
            owner,
            title,
            goal_amount,
            current_amount_raised: 0,
        }
    }

    /// The state after creating a campaign: it is appended with the next
    /// identifier and nothing raised, and the identifier advances by one.
    pub open spec fn created(
        self,
        owner: soroban_sdk::Address,
        title: soroban_sdk::String,
        goal_amount: i128,
    ) -> CampaignLedger {
        CampaignLedger {
            campaigns: self.campaigns.push(self.new_campaign(owner, title, goal_amount)),
            next_campaign_id: self.next_campaign_id + 1,
        }
    }

    /// The outcome of contributing `amount` to campaign `id`: the amount must
    /// be positive and the campaign must exist; its total then grows by
    /// `amount`, unless the total would leave the range of `i128`.
    pub open spec fn contributed(self, id: u32, amount: i128) -> Result<
        CampaignLedger,
        CrowdfundingError,
    > {
        if amount <= 0 {
            Err(CrowdfundingError::InvalidAmount)
        } else {
            match self.lookup(id) {
                None => Err(CrowdfundingError::CampaignNotFound),
                Some(c) => if c.current_amount_raised + amount > i128::MAX {
                    Err(CrowdfundingError::AmountOverflow)
                } else {
                    Ok(
                        CampaignLedger {
                            campaigns: self.campaigns.update(
                                id - 1,
                                Campaign {
                                    current_amount_raised: (c.current_amount_raised
                                        + amount) as i128,
                                    ..c
                                },
                            ),
                            next_campaign_id: self.next_campaign_id,
                        },
                    )
                },
            }
        }
    }
}

/// The persisted state of the crowdfunding contract: every campaign, in
/// creation order, and the identifier allocator's counter.
pub struct CrowdfundingContract {
    campaigns: Vec<Campaign>,
    next_campaign_id: u32,
}

impl View for CrowdfundingContract {
    type V = CampaignLedger;

    closed spec fn view(&self) -> CampaignLedger {
        CampaignLedger {
            campaigns: self.campaigns@,
            next_campaign_id: self.next_campaign_id as int,
        }
    }
}

/// The state held by the two persisted slots, where an empty slot stands for
/// its first-use value: no campaigns, and 1 as the next identifier.
pub open spec fn stored_ledger(
    campaigns: Option<Vec<Campaign>>,
    next_campaign_id: Option<u32>,
) -> CampaignLedger {
    CampaignLedger {
        campaigns: match campaigns {
            Some(v) => v@,
            None => Seq::empty(),
        },
        next_campaign_id: match next_campaign_id {
            Some(n) => n as int,
            None => 1,
        },
    }
}

impl CrowdfundingContract {
    /// Rebuilds the registry from the contents of its two persisted slots,
    /// `None` standing for a slot never written. Returns `None` when the
    /// stored values are not a consistent state.
    pub fn load(campaigns: Option<Vec<Campaign>>, next_campaign_id: Option<u32>) -> (r: Option<
        CrowdfundingContract,
    >)
        ensures
            r is Some <==> stored_ledger(campaigns, next_campaign_id).well_formed(),
            r is Some ==> r->0@ == stored_ledger(campaigns, next_campaign_id),
    {
        let ghost stored = stored_ledger(campaigns, next_campaign_id);
        let list = match campaigns {
            Some(v) => v,
            None => Vec::new(),
        };
        let next = match next_campaign_id {
            Some(n) => n,
            None => 1,
        };
        let n = list.len();
        if next == 0 || (next - 1) as usize != n {
            return None;
        }
        let mut i: usize = 0;
        while i < n
            invariant
                n == list.len(),
                list@ == stored.campaigns,
                stored == stored_ledger(campaigns, next_campaign_id),
                i <= n,
                forall|j: int| 0 <= j < i ==> #[trigger] list@[j].id == j + 1,
            decreases n - i,
        {
            if list[i].id as usize != i + 1 {
                assert(stored.campaigns[i as int].id != i + 1);
                return None;
            }
            i += 1;
        }
        Some(CrowdfundingContract { campaigns: list, next_campaign_id: next })
    }

    /// The contents of the two persisted slots: the campaigns and the next
    /// identifier.
    pub fn into_stored(self) -> (r: (Vec<Campaign>, u32))
        ensures
            r.0@ == self@.campaigns,
            r.1 == self@.next_campaign_id,
    {
        (self.campaigns, self.next_campaign_id)
    }

    /// A registry with no campaigns, whose first identifier is 1.
    pub fn new() -> (r: CrowdfundingContract)
        ensures
            r@ == CampaignLedger::empty(),
            r@.well_formed(),
    {
        CrowdfundingContract { campaigns: Vec::new(), next_campaign_id: 1 }
    }

    /// The identifier that the next created campaign receives.
    pub fn get_next_campaign_id(&self) -> (r: u32)
        ensures
            r == self@.next_campaign_id,
    {
        self.next_campaign_id
    }

    /// Creates a campaign owned by `owner` with nothing raised, appends it to
    /// the collection and returns its identifier.
    pub fn create_campaign(
        &mut self,
        owner: soroban_sdk::Address,
        title: soroban_sdk::String,
        goal_amount: i128,
    ) -> (r: u32)
        requires
            old(self)@.well_formed(),
            old(self)@.next_campaign_id < u32::MAX,
        ensures
            r == old(self)@.next_campaign_id,
            r == old(self)@.count() + 1,
            final(self)@ == old(self)@.created(owner, title, goal_amount),
            final(self)@.well_formed(),
    {
        let campaign_id = self.next_campaign_id;
        let campaign = Campaign {
            id: campaign_id,
            owner,
            title,
            goal_amount,
            current_amount_raised: 0,
        };
        self.campaigns.push(campaign);
        self.next_campaign_id = campaign_id + 1;
        proof {
            let s = old(self)@.created(owner, title, goal_amount);
            assert(self@.campaigns =~= s.campaigns);
        }
        campaign_id
    }

    /// Adds `amount` to the running total of the campaign with identifier
    /// `campaign_id`. On any error the registry is left as it was.
    pub fn contribute(&mut self, campaign_id: u32, amount: i128) -> (r: Result<
        bool,
        CrowdfundingError,
    >)
        requires
            old(self)@.well_formed(),
        ensures
            final(self)@.well_formed(),
            match old(self)@.contributed(campaign_id, amount) {
                Ok(s) => r == Ok::<bool, CrowdfundingError>(true) && final(self)@ == s,
                Err(e) => r == Err::<bool, CrowdfundingError>(e) && final(self)@ == old(self)@,
            },
    {
        if amount <= 0 {
            return Err(CrowdfundingError::InvalidAmount);
        }
        let n = self.campaigns.len();
        let mut i: usize = 0;
        while i < n
            invariant
                n == self.campaigns.len(),
                *self == *old(self),
                old(self)@.well_formed(),
                0 < amount,
                i <= n,
                forall|j: int| 0 <= j < i ==> #[trigger] self.campaigns@[j].id != campaign_id,
            decreases n - i,
        {
            if self.campaigns[i].id == campaign_id {
                assert(self.campaigns@[i as int].id == i + 1);
                let raised = self.campaigns[i].current_amount_raised;
                match raised.checked_add(amount) {
                    None => {
                        return Err(CrowdfundingError::AmountOverflow);
                    },
                    Some(total) => {
                        let mut campaign = self.campaigns.remove(i);
                        campaign.current_amount_raised = total;
                        self.campaigns.insert(i, campaign);
                        proof {
                            let s = old(self)@.contributed(campaign_id, amount)->Ok_0;
                            assert(self@.campaigns =~= s.campaigns);
                        }
                        return Ok(true);
                    },
                }
            }
            i += 1;
        }
        proof {
            if 1 <= campaign_id <= n {
                assert(self.campaigns@[campaign_id - 1].id == campaign_id);
            }
        }
        Err(CrowdfundingError::CampaignNotFound)
    }

    /// Every campaign, in creation order.
    pub fn get_campaigns(&self) -> (r: &Vec<Campaign>)
        ensures
            r@ == self@.campaigns,
    {
        &self.campaigns
    }

    /// The campaign with identifier `campaign_id`, found by a scan in creation
    /// order, or `None` if there is none.
    pub fn get_campaign(&self, campaign_id: u32) -> (r: Option<&Campaign>)
        requires
            self@.well_formed(),
        ensures
            r is Some <==> self@.lookup(campaign_id) is Some,
            r is Some ==> *r->0 == self@.lookup(campaign_id)->0,
    {
        let n = self.campaigns.len();
        let mut i: usize = 0;
        while i < n
            invariant
                n == self.campaigns.len(),
                self@.well_formed(),
                i <= n,
                forall|j: int| 0 <= j < i ==> #[trigger] self.campaigns@[j].id != campaign_id,
            decreases n - i,
        {
            if self.campaigns[i].id == campaign_id {
                assert(self.campaigns@[i as int].id == i + 1);
                return Some(&self.campaigns[i]);
            }
            i += 1;
        }
        proof {
            if 1 <= campaign_id <= n {
                assert(self.campaigns@[campaign_id - 1].id == campaign_id);
            }
        }
        None
    }

    /// The number of campaigns.
    pub fn get_campaign_count(&self) -> (r: u32)
        requires
            self@.well_formed(),
        ensures
            r == self@.count(),
            r == self@.campaigns.len(),
    {
        self.campaigns.len() as u32
    }
}

} // verus!
