//! Bonding-curve token market with a performance-driven reward layer.
//!
//! The crate holds the pricing curve, the rules that admit or reject a trade,
//! the engagement counters with their score, and the bookkeeping of reward
//! claims. Moving balances on a ledger is left to the caller: every operation
//! that needs the ledger first decides and hands back an order, and the record
//! is updated by a second call once the ledger has carried the order out.

pub mod errors;
pub mod identity;
pub mod state;
pub mod market;
pub mod performance;
pub mod rewards;
pub mod registry;
pub mod laws;

pub use errors::XGrowthError;
pub use identity::Identity;
pub use state::{Agent, BondingCurveParams, PerformanceMetrics, Platform, UserRewards};
pub use market::{buy_from_curve, sell_to_curve, BuyOrder, SellOrder};
pub use laws::Trade;
pub use performance::{distribute_rewards, update_performance};
pub use rewards::claim_rewards;
pub use registry::{create_agent, initialize_platform};
