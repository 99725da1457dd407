//! An on-ledger crowdfunding contract: campaign records stored in
//! program-owned accounts, with three instructions — create a campaign,
//! withdraw collected funds, and donate — routed by a one-byte selector.

pub mod account;
pub mod codec;
pub mod validate;
pub mod handlers;
pub mod dispatch;
pub mod laws;
