//! A registry of crowdfunding campaigns: campaigns are created with
//! sequential identifiers, contributions raise a campaign's running total, and
//! the collection can be queried by identifier or as a whole.
pub mod campaign;
pub mod ledger;
pub mod laws;
