//! A single-asset Dutch auction: an asset is locked in a custody slot, its
//! price decays on a fixed schedule from a starting price toward a floor, and
//! the first buyer to accept the current price settles the sale. Once the
//! price has fully decayed, the original owner may instead reclaim the asset
//! unsold. All prices and payment amounts are integers in the platform's
//! minor currency unit, so that every replica computes the same price.

pub mod cancel_auction;
pub mod close_auction;
pub mod create_auction;
pub mod errors;
pub mod initialize_pdas;
pub mod laws;
pub mod state;
pub mod utils;
