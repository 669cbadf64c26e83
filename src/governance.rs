use vstd::prelude::*;

use crate::address::keys_eq;
use crate::error::TokenBridgeError;

verus! {

/// A decree to replace this program's executable with the staged buffer `implementation`.
#[derive(Debug, Clone, Copy)]
pub struct ContractUpgradeDecree {
    /// Chain of the deployment that the decree is meant for.
    pub chain: u16,
    /// Address of the buffer that holds the new executable.
    pub implementation: [u8; 32],
}

/// The governance actions that the payload parser recognizes.
#[derive(Debug, Clone, Copy)]
pub enum GovernanceAction {
    /// Register a foreign token bridge emitter.
    RegisterChain { chain: u16, address: [u8; 32] },
    /// Upgrade this program.
    ContractUpgrade(ContractUpgradeDecree),
}

/// An authenticated governance message, as handed over by the message verification layer.
#[derive(Debug, Clone, Copy)]
pub struct GovernanceMessage {
    pub emitter_chain: u16,
    pub emitter_address: [u8; 32],
    pub sequence: u64,
    /// The decoded payload, `None` where the parser did not recognize the action.
    pub payload: Option<GovernanceAction>,
}

/// What validating `msg` for a deployment on `this_chain`, with `buffer` presented as
/// the new executable, results in.
pub open spec fn validate_spec(
    msg: GovernanceMessage,
    this_chain: u16,
    buffer: [u8; 32],
) -> Result<ContractUpgradeDecree, TokenBridgeError> {
    match msg.payload {
        Some(GovernanceAction::ContractUpgrade(d)) => {
            if d.chain != this_chain {
                Err(TokenBridgeError::GovernanceForAnotherChain)
            } else if d.implementation@ != buffer@ {
                Err(TokenBridgeError::ImplementationMismatch)
            } else {
                Ok(d)
            }
        },
        _ => Err(TokenBridgeError::InvalidGovernanceAction),
    }
}

/// Checks that `msg` carries a contract upgrade decree for this chain whose
/// implementation is the presented `buffer`, and returns the decree.
pub fn validate(msg: &GovernanceMessage, this_chain: u16, buffer: &[u8; 32]) -> (r: Result<
    ContractUpgradeDecree,
    TokenBridgeError,
>)
    ensures
        r == validate_spec(*msg, this_chain, *buffer),
{
    match msg.payload {
        Some(GovernanceAction::ContractUpgrade(d)) => {
            if d.chain != this_chain {
                Err(TokenBridgeError::GovernanceForAnotherChain)
            } else if !keys_eq(&d.implementation, buffer) {
                Err(TokenBridgeError::ImplementationMismatch)
            } else {
                Ok(d)
            }
        },
        _ => Err(TokenBridgeError::InvalidGovernanceAction),
    }
}

} // verus!
