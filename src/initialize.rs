use vstd::prelude::*;

use crate::address::{found_view, keys_eq, program_address_of, single_seed, try_find_program_address};
use crate::error::TokenBridgeError;
use crate::loader::SYSTEM_PROGRAM_ID;

verus! {

/// Seed of the configuration record: the bytes of "config".
pub const CONFIG_SEED_PREFIX: [u8; 6] = [99, 111, 110, 102, 105, 103];

/// The per-deployment configuration record.
#[derive(Debug, Clone, Copy)]
pub struct Config {
    /// The core bridge program that this deployment works with.
    pub core_bridge_program: [u8; 32],
}

/// The accounts presented to the initialize instruction, by address.
#[derive(Debug, Clone, Copy)]
pub struct Initialize {
    pub payer: [u8; 32],
    pub config: [u8; 32],
    pub rent: [u8; 32],
    pub system_program: [u8; 32],
}

/// The address of the configuration record of `program_id`.
pub open spec fn config_address_of(program_id: Seq<u8>) -> Option<(Seq<u8>, u8)> {
    program_address_of(seq![CONFIG_SEED_PREFIX@], program_id)
}

/// Whether the presented accounts fit `config_address`, the derived address of the record.
pub open spec fn initialize_accounts_ok(
    accounts: Initialize,
    config_address: Option<(Seq<u8>, u8)>,
) -> bool {
    &&& config_address is Some
    &&& (config_address->0).0 == accounts.config@
    &&& accounts.system_program@ == SYSTEM_PROGRAM_ID@
}

/// Builds the configuration record once the accounts have been checked against the
/// derived `config_address`.
pub fn initialize_with(
    accounts: &Initialize,
    config_address: &Option<([u8; 32], u8)>,
    core_bridge_program: &[u8; 32],
) -> (r: Result<Config, TokenBridgeError>)
    ensures
        initialize_accounts_ok(*accounts, found_view(*config_address)) ==> r == Ok::<
            Config,
            TokenBridgeError,
        >(Config { core_bridge_program: *core_bridge_program }),
        !initialize_accounts_ok(*accounts, found_view(*config_address)) ==> r == Err::<
            Config,
            TokenBridgeError,
        >(TokenBridgeError::InvalidAccount),
{
    let address_ok = match config_address {
        Some((address, _)) => keys_eq(address, &accounts.config),
        None => false,
    };
    if !address_ok || !keys_eq(&accounts.system_program, &SYSTEM_PROGRAM_ID) {
        return Err(TokenBridgeError::InvalidAccount);
    }
    Ok(Config { core_bridge_program: *core_bridge_program })
}

/// Creates the configuration record of the deployment `program_id`, which records
/// `core_bridge_program`.
pub fn initialize(
    program_id: &[u8; 32],
    accounts: &Initialize,
    core_bridge_program: &[u8; 32],
) -> (r: Result<Config, TokenBridgeError>)
    ensures
        initialize_accounts_ok(*accounts, config_address_of(program_id@)) ==> r == Ok::<
            Config,
            TokenBridgeError,
        >(Config { core_bridge_program: *core_bridge_program }),
        !initialize_accounts_ok(*accounts, config_address_of(program_id@)) ==> r == Err::<
            Config,
            TokenBridgeError,
        >(TokenBridgeError::InvalidAccount),
{
    let config_address = try_find_program_address(&single_seed(&CONFIG_SEED_PREFIX), program_id);
    initialize_with(accounts, &config_address, core_bridge_program)
}

} // verus!
