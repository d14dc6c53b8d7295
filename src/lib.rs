//! A last-bidder-wins key auction: pricing curve, timer extension, group-sharded
//! key-holder registry, lazy revenue distribution and referral accounting.
pub mod error;
pub mod pricing;
pub mod state;
pub mod holders;
pub mod game;
pub mod ownership;
pub mod round;
pub mod claims;
pub mod referral;
