use vstd::prelude::*;

verus! {

/// Declares soroban_sdk::Address so that a campaign can hold its owner's
/// address. The registry only moves the value; nothing inside it is read.
#[verifier::external_type_specification]
#[verifier::external_body]
pub struct ExAddress(soroban_sdk::Address);

/// Declares soroban_sdk::String so that a campaign can hold its title. The
/// registry only moves the value; nothing inside it is read.
#[verifier::external_type_specification]
#[verifier::external_body]
pub struct ExSorobanString(soroban_sdk::String);

/// One crowdfunding campaign.
pub struct Campaign {
    /// Identifier assigned at creation; never changes.
    pub id: u32,
    /// The address that created the campaign.
    pub owner: soroban_sdk::Address,
    /// Free-form description.
    pub title: soroban_sdk::String,
    /// Target amount; its sign and size are not checked.
    pub goal_amount: i128,
    /// Total of all contributions so far.
    pub current_amount_raised: i128,
}

/// The two persisted slots of the registry's state.
#[derive(Clone, Copy, Debug, PartialEq, Eq, Structural)]
pub enum DataKey {
    /// The full collection of campaigns, in creation order.
    Campaigns,
    /// The identifier that the next created campaign receives.
    NextCampaignId,
}

/// Errors of a contribution. Each one leaves the registry unchanged.
#[derive(Clone, Copy, Debug, PartialEq, Eq, Structural)]
pub enum CrowdfundingError {
    /// The contributed amount is zero or negative.
    InvalidAmount,
    /// No campaign has the given identifier.
    CampaignNotFound,
    /// The new total would not fit in an `i128`.
    AmountOverflow,
}

} // verus!
