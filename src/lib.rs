//! Governance-driven contract upgrade for a token bridge deployment: a decree is
//! validated against this deployment, claimed exactly once, and turned into a call
//! of the upgradeable loader signed by a derived authority.

pub mod error;
pub mod governance;
pub mod claim;
pub mod address;
pub mod loader;
pub mod authority;
pub mod upgrade_contract;
pub mod initialize;
