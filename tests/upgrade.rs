use std::str::FromStr;

use solana_program::pubkey::Pubkey;
use solana_program::{bpf_loader_upgradeable, sysvar};

use token_bridge_upgrade::address::{be_bytes, keys_eq};
use token_bridge_upgrade::authority::{derive_upgrade_authority, UPGRADE_SEED_PREFIX};
use token_bridge_upgrade::claim::{derive_claim_address, ClaimKey, ClaimTable};
use token_bridge_upgrade::error::TokenBridgeError;
use token_bridge_upgrade::governance::{
    validate, ContractUpgradeDecree, GovernanceAction, GovernanceMessage,
};
use token_bridge_upgrade::initialize::{initialize, initialize_with, Initialize, CONFIG_SEED_PREFIX};
use token_bridge_upgrade::loader::{
    derive_program_data, CLOCK_SYSVAR_ID, LOADER_ID, RENT_SYSVAR_ID, SYSTEM_PROGRAM_ID,
};
use token_bridge_upgrade::upgrade_contract::{
    check_claim_account, check_upgrade_accounts, upgrade_contract, upgrade_outcome, Deployment, UpgradeContract,
};

fn program_id() -> [u8; 32] {
    Pubkey::from_str("wormDTUJ6AWPNvk59vGQbDvGJmqbDTdgWgAqcLBCgUb").unwrap().to_bytes()
}

fn deployment() -> Deployment {
    Deployment { program_id: program_id(), chain: 1 }
}

const EMITTER: [u8; 32] = [4; 32];
const IMPLEMENTATION: [u8; 32] = [0x58; 32];
const SPILL: [u8; 32] = [7; 32];

fn accounts(buffer: [u8; 32]) -> UpgradeContract {
    let pid = program_id();
    UpgradeContract {
        payer: [9; 32],
        vaa: [10; 32],
        claim: derive_claim_address(&key(), &pid).unwrap().0,
        upgrade_authority: derive_upgrade_authority(&pid).unwrap().address,
        spill: SPILL,
        buffer,
        program_data: derive_program_data(&pid).unwrap().0,
        this_program: pid,
        rent: RENT_SYSVAR_ID,
        clock: CLOCK_SYSVAR_ID,
        bpf_loader_upgradeable_program: LOADER_ID,
        system_program: SYSTEM_PROGRAM_ID,
    }
}

fn message(target_chain: u16, implementation: [u8; 32]) -> GovernanceMessage {
    GovernanceMessage {
        emitter_chain: 1,
        emitter_address: EMITTER,
        sequence: 42,
        payload: Some(GovernanceAction::ContractUpgrade(ContractUpgradeDecree {
            chain: target_chain,
            implementation,
        })),
    }
}

fn key() -> ClaimKey {
    ClaimKey { emitter_chain: 1, emitter_address: EMITTER, sequence: 42 }
}

#[test]
fn upgrade_succeeds_and_claims() {
    let mut claims = ClaimTable::new();
    let call = upgrade_contract(&deployment(), &message(1, IMPLEMENTATION), &accounts(IMPLEMENTATION), &mut claims)
        .unwrap();
    assert!(claims.contains(&key()));
    let pid = Pubkey::new_from_array(program_id());
    let authority = Pubkey::find_program_address(&[b"upgrade"], &pid);
    let expected = bpf_loader_upgradeable::upgrade(
        &pid,
        &Pubkey::new_from_array(IMPLEMENTATION),
        &authority.0,
        &Pubkey::new_from_array(SPILL),
    );
    assert_eq!(call.instruction.program_id, bpf_loader_upgradeable::id().to_bytes());
    assert_eq!(call.instruction.data, vec![3u8, 0, 0, 0]);
    assert_eq!(call.instruction.accounts.len(), 7);
    for (a, m) in call.instruction.accounts.iter().zip(expected.accounts.iter()) {
        assert_eq!(a.key, m.pubkey.to_bytes());
        assert_eq!(a.is_signer, m.is_signer);
        assert_eq!(a.is_writable, m.is_writable);
    }
    assert_eq!(call.instruction.accounts[2].key, IMPLEMENTATION);
    assert_eq!(call.instruction.accounts[3].key, SPILL);
    assert_eq!(call.instruction.accounts[6].key, authority.0.to_bytes());
    assert!(call.instruction.accounts[6].is_signer);
    assert_eq!(call.signer_seed, b"upgrade".to_vec());
    assert_eq!(call.signer_bump, authority.1);
    assert_eq!(upgrade_outcome(true), Ok(()));
}

#[test]
fn resubmission_is_already_executed() {
    let mut claims = ClaimTable::new();
    assert!(upgrade_contract(&deployment(), &message(1, IMPLEMENTATION), &accounts(IMPLEMENTATION), &mut claims)
        .is_ok());
    let again =
        upgrade_contract(&deployment(), &message(1, IMPLEMENTATION), &accounts(IMPLEMENTATION), &mut claims);
    assert_eq!(again.unwrap_err(), TokenBridgeError::AlreadyExecuted);
    assert!(claims.contains(&key()));
}

#[test]
fn decree_for_another_chain_creates_no_claim() {
    let mut claims = ClaimTable::new();
    let r = upgrade_contract(&deployment(), &message(2, IMPLEMENTATION), &accounts(IMPLEMENTATION), &mut claims);
    assert_eq!(r.unwrap_err(), TokenBridgeError::GovernanceForAnotherChain);
    assert!(!claims.contains(&key()));
    assert_eq!(
        validate(&message(2, IMPLEMENTATION), 1, &IMPLEMENTATION).unwrap_err(),
        TokenBridgeError::GovernanceForAnotherChain
    );
}

#[test]
fn mismatched_implementation_creates_no_claim() {
    let mut claims = ClaimTable::new();
    let other = [0x59; 32];
    let r = upgrade_contract(&deployment(), &message(1, IMPLEMENTATION), &accounts(other), &mut claims);
    assert_eq!(r.unwrap_err(), TokenBridgeError::ImplementationMismatch);
    assert!(!claims.contains(&key()));
    let first = validate(&message(1, IMPLEMENTATION), 1, &other);
    let second = validate(&message(1, IMPLEMENTATION), 1, &other);
    assert_eq!(first.unwrap_err(), TokenBridgeError::ImplementationMismatch);
    assert_eq!(second.unwrap_err(), TokenBridgeError::ImplementationMismatch);
    assert!(upgrade_contract(&deployment(), &message(1, IMPLEMENTATION), &accounts(IMPLEMENTATION), &mut claims)
        .is_ok());
}

#[test]
fn unrecognized_or_other_action_is_invalid() {
    let mut claims = ClaimTable::new();
    let mut msg = message(1, IMPLEMENTATION);
    msg.payload = None;
    let r = upgrade_contract(&deployment(), &msg, &accounts(IMPLEMENTATION), &mut claims);
    assert_eq!(r.unwrap_err(), TokenBridgeError::InvalidGovernanceAction);
    msg.payload = Some(GovernanceAction::RegisterChain { chain: 2, address: [1; 32] });
    let r = upgrade_contract(&deployment(), &msg, &accounts(IMPLEMENTATION), &mut claims);
    assert_eq!(r.unwrap_err(), TokenBridgeError::InvalidGovernanceAction);
    assert!(!claims.contains(&key()));
}

#[test]
fn failed_upgrade_keeps_claim() {
    let mut claims = ClaimTable::new();
    assert!(upgrade_contract(&deployment(), &message(1, IMPLEMENTATION), &accounts(IMPLEMENTATION), &mut claims)
        .is_ok());
    assert_eq!(upgrade_outcome(false), Err(TokenBridgeError::PrivilegedOperationFailed));
    let again =
        upgrade_contract(&deployment(), &message(1, IMPLEMENTATION), &accounts(IMPLEMENTATION), &mut claims);
    assert_eq!(again.unwrap_err(), TokenBridgeError::AlreadyExecuted);
}

#[test]
fn authority_derivation_is_repeatable() {
    let pid = program_id();
    let a = derive_upgrade_authority(&pid).unwrap();
    let b = derive_upgrade_authority(&pid).unwrap();
    assert_eq!(a.address, b.address);
    assert_eq!(a.bump, b.bump);
    let (expected, bump) = Pubkey::find_program_address(&[b"upgrade"], &Pubkey::new_from_array(pid));
    assert_eq!(a.address, expected.to_bytes());
    assert_eq!(a.bump, bump);
    assert_ne!(a.address, pid);
    assert_eq!(UPGRADE_SEED_PREFIX.to_vec(), b"upgrade".to_vec());
}

#[test]
fn program_data_address_matches_loader() {
    let pid = program_id();
    let (address, bump) = derive_program_data(&pid).unwrap();
    let (expected, expected_bump) =
        Pubkey::find_program_address(&[&pid], &bpf_loader_upgradeable::id());
    assert_eq!(address, expected.to_bytes());
    assert_eq!(bump, expected_bump);
}

#[test]
fn fixed_ids_match_solana() {
    assert_eq!(LOADER_ID, bpf_loader_upgradeable::id().to_bytes());
    assert_eq!(RENT_SYSVAR_ID, sysvar::rent::id().to_bytes());
    assert_eq!(CLOCK_SYSVAR_ID, sysvar::clock::id().to_bytes());
    assert_eq!(SYSTEM_PROGRAM_ID, solana_program::system_program::id().to_bytes());
}

#[test]
fn wrong_authority_is_rejected() {
    let mut claims = ClaimTable::new();
    let mut accts = accounts(IMPLEMENTATION);
    accts.upgrade_authority = [3; 32];
    let r = upgrade_contract(&deployment(), &message(1, IMPLEMENTATION), &accts, &mut claims);
    assert_eq!(r.unwrap_err(), TokenBridgeError::InvalidUpgradeAuthority);
    assert!(!claims.contains(&key()));
}

#[test]
fn wrong_account_is_rejected() {
    let mut claims = ClaimTable::new();
    let mut accts = accounts(IMPLEMENTATION);
    accts.rent = CLOCK_SYSVAR_ID;
    let r = upgrade_contract(&deployment(), &message(1, IMPLEMENTATION), &accts, &mut claims);
    assert_eq!(r.unwrap_err(), TokenBridgeError::InvalidAccount);
    let mut accts = accounts(IMPLEMENTATION);
    accts.program_data = [5; 32];
    let r = upgrade_contract(&deployment(), &message(1, IMPLEMENTATION), &accts, &mut claims);
    assert_eq!(r.unwrap_err(), TokenBridgeError::InvalidAccount);
    assert!(!claims.contains(&key()));
}

#[test]
fn account_check_on_given_addresses() {
    let pid = program_id();
    let accts = accounts(IMPLEMENTATION);
    let authority = derive_upgrade_authority(&pid);
    let data = derive_program_data(&pid);
    assert_eq!(check_upgrade_accounts(&accts, &pid, &authority, &data), Ok(authority.unwrap().bump));
    assert_eq!(
        check_upgrade_accounts(&accts, &pid, &None, &data),
        Err(TokenBridgeError::InvalidUpgradeAuthority)
    );
    assert_eq!(check_upgrade_accounts(&accts, &pid, &authority, &None), Err(TokenBridgeError::InvalidAccount));
    assert_eq!(
        check_upgrade_accounts(&accts, &[1; 32], &authority, &data),
        Err(TokenBridgeError::InvalidAccount)
    );
}

#[test]
fn claims_are_per_identity() {
    let mut claims = ClaimTable::new();
    assert_eq!(claims.claim(key()), Ok(()));
    let next = ClaimKey { sequence: 43, ..key() };
    assert!(!claims.contains(&next));
    assert_eq!(claims.claim(next), Ok(()));
    assert_eq!(claims.claim(key()), Err(TokenBridgeError::AlreadyExecuted));
    let other_chain = ClaimKey { emitter_chain: 2, ..key() };
    assert_eq!(claims.claim(other_chain), Ok(()));
}

#[test]
fn keys_compare_bytewise() {
    let mut a = [0u8; 32];
    let b = [0u8; 32];
    assert!(keys_eq(&a, &b));
    a[31] = 1;
    assert!(!keys_eq(&a, &b));
}

#[test]
fn initialize_records_core_bridge() {
    let pid = program_id();
    let (config, _) = Pubkey::find_program_address(&[b"config"], &Pubkey::new_from_array(pid));
    let accts = Initialize { payer: [9; 32], config: config.to_bytes(), rent: RENT_SYSVAR_ID, system_program: SYSTEM_PROGRAM_ID };
    let core = [8; 32];
    assert_eq!(initialize(&pid, &accts, &core).unwrap().core_bridge_program, core);
    let wrong = Initialize { config: [1; 32], ..accts };
    assert_eq!(initialize(&pid, &wrong, &core).unwrap_err(), TokenBridgeError::InvalidAccount);
    assert_eq!(initialize_with(&accts, &None, &core).unwrap_err(), TokenBridgeError::InvalidAccount);
    assert_eq!(CONFIG_SEED_PREFIX.to_vec(), b"config".to_vec());
}

#[test]
fn claim_address_matches_seeds() {
    let pid = program_id();
    let (address, bump) = derive_claim_address(&key(), &pid).unwrap();
    let (expected, expected_bump) = Pubkey::find_program_address(
        &[&EMITTER, &1u16.to_be_bytes(), &42u64.to_be_bytes()],
        &Pubkey::new_from_array(pid),
    );
    assert_eq!(address, expected.to_bytes());
    assert_eq!(bump, expected_bump);
    let other = derive_claim_address(&ClaimKey { sequence: 43, ..key() }, &pid).unwrap();
    assert_ne!(other.0, address);
}

#[test]
fn wrong_claim_account_is_rejected() {
    let mut claims = ClaimTable::new();
    let mut accts = accounts(IMPLEMENTATION);
    accts.claim = [11; 32];
    let r = upgrade_contract(&deployment(), &message(1, IMPLEMENTATION), &accts, &mut claims);
    assert_eq!(r.unwrap_err(), TokenBridgeError::InvalidAccount);
    assert!(!claims.contains(&key()));
    assert!(!check_claim_account(&accts, &derive_claim_address(&key(), &program_id())));
    assert!(!check_claim_account(&accounts(IMPLEMENTATION), &None));
    assert!(check_claim_account(&accounts(IMPLEMENTATION), &derive_claim_address(&key(), &program_id())));
}

#[test]
fn big_endian_bytes() {
    assert_eq!(be_bytes(1, 2), vec![0, 1]);
    assert_eq!(be_bytes(0x0102, 2), vec![1, 2]);
    assert_eq!(be_bytes(42, 8), 42u64.to_be_bytes().to_vec());
    assert_eq!(be_bytes(u64::MAX, 8), vec![255; 8]);
    assert_eq!(be_bytes(0x0123_4567_89ab_cdef, 8), 0x0123_4567_89ab_cdefu64.to_be_bytes().to_vec());
}
