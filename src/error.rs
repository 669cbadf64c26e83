use vstd::prelude::*;

verus! {

/// Every way in which processing a governance decree can fail.
#[derive(Debug, Clone, Copy, PartialEq, Eq, Structural)]
pub enum TokenBridgeError {
    /// The payload is not a recognized governance action, or not a contract upgrade.
    InvalidGovernanceAction,
    /// The decree targets another chain than this deployment's.
    GovernanceForAnotherChain,
    /// The presented buffer is not the implementation that the decree names.
    ImplementationMismatch,
    /// The message identity was already claimed.
    AlreadyExecuted,
    /// A presented account is not the one this instruction requires.
    InvalidAccount,
    /// The upgrade authority presented is not the one derived from its seed.
    InvalidUpgradeAuthority,
    /// The upgradeable loader rejected the upgrade.
    PrivilegedOperationFailed,
}

} // verus!
