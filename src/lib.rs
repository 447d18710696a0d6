//! Marketplace and collection logic for non-fungible token sales: a ledger
//! of fixed-price, auction and offer sales, settlement with royalty splits,
//! payment routing through liquidity pools, and presale / airdrop bookkeeping.
pub mod types;
pub mod royalty;
pub mod ledger;
pub mod sale;
pub mod route;
pub mod collection;
pub mod merkle;
pub mod tables;
pub mod presale;
pub mod marketplace;
pub mod random_sale;
