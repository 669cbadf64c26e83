use vstd::prelude::*;

use crate::address::{bytes_to_vec, found_view, keys_eq};
use crate::authority::{
    authority_view, derive_upgrade_authority, upgrade_authority_of, AuthorityIdentity,
    UPGRADE_SEED_PREFIX,
};
use crate::claim::{claim_address_of, derive_claim_address, ClaimKey, ClaimTable};
use crate::error::TokenBridgeError;
use crate::governance::{
    validate, validate_spec, ContractUpgradeDecree, GovernanceAction, GovernanceMessage,
};
use crate::loader::{
    derive_program_data, is_upgrade_instruction, loader_upgrade, program_data_address,
    ProgramInstruction, CLOCK_SYSVAR_ID, LOADER_ID, RENT_SYSVAR_ID, SYSTEM_PROGRAM_ID,
};

verus! {

/// The deployment that processes decrees: its program id and its chain.
#[derive(Debug, Clone, Copy)]
pub struct Deployment {
    pub program_id: [u8; 32],
    pub chain: u16,
}

/// The accounts presented to the contract upgrade instruction, by address.
#[derive(Debug, Clone, Copy)]
pub struct UpgradeContract {
    pub payer: [u8; 32],
    pub vaa: [u8; 32],
    pub claim: [u8; 32],
    pub upgrade_authority: [u8; 32],
    pub spill: [u8; 32],
    pub buffer: [u8; 32],
    pub program_data: [u8; 32],
    pub this_program: [u8; 32],
    pub rent: [u8; 32],
    pub clock: [u8; 32],
    pub bpf_loader_upgradeable_program: [u8; 32],
    pub system_program: [u8; 32],
}

/// The loader call that a validated and claimed decree leads to, with the seed and
/// bump that sign it for the upgrade authority.
#[derive(Debug, Clone)]
pub struct UpgradeCall {
    pub instruction: ProgramInstruction,
    pub signer_seed: Vec<u8>,
    pub signer_bump: u8,
}

/// The claim identity of a message.
pub open spec fn key_of(msg: GovernanceMessage) -> ClaimKey {
    ClaimKey {
        emitter_chain: msg.emitter_chain,
        emitter_address: msg.emitter_address,
        sequence: msg.sequence,
    }
}

/// What checking the presented accounts gives, where `authority` and `program_data`
/// are the derived addresses: the authority's bump, or the error.
pub open spec fn accounts_spec(
    accounts: UpgradeContract,
    program_id: Seq<u8>,
    authority: Option<(Seq<u8>, u8)>,
    program_data: Option<(Seq<u8>, u8)>,
) -> Result<u8, TokenBridgeError> {
    if authority is None || (authority->0).0 != accounts.upgrade_authority@ {
        Err(TokenBridgeError::InvalidUpgradeAuthority)
    } else if program_data is None || (program_data->0).0 != accounts.program_data@
        || accounts.this_program@ != program_id || accounts.rent@ != RENT_SYSVAR_ID@
        || accounts.clock@ != CLOCK_SYSVAR_ID@ || accounts.bpf_loader_upgradeable_program@
        != LOADER_ID@ || accounts.system_program@ != SYSTEM_PROGRAM_ID@ {
        Err(TokenBridgeError::InvalidAccount)
    } else {
        Ok((authority->0).1)
    }
}

/// Checks the presented accounts against the derived `authority` and `program_data`
/// addresses of `program_id`, and returns the authority's bump.
pub fn check_upgrade_accounts(
    accounts: &UpgradeContract,
    program_id: &[u8; 32],
    authority: &Option<AuthorityIdentity>,
    program_data: &Option<([u8; 32], u8)>,
) -> (r: Result<u8, TokenBridgeError>)
    ensures
        r == accounts_spec(*accounts, program_id@, authority_view(*authority), found_view(*program_data)),
{
    let bump = match authority {
        Some(a) => {
            if !keys_eq(&a.address, &accounts.upgrade_authority) {
                return Err(TokenBridgeError::InvalidUpgradeAuthority);
            }
            a.bump
        },
        None => return Err(TokenBridgeError::InvalidUpgradeAuthority),
    };
    let data_ok = match program_data {
        Some((address, _)) => keys_eq(address, &accounts.program_data),
        None => false,
    };
    if !data_ok || !keys_eq(&accounts.this_program, program_id) || !keys_eq(
        &accounts.rent,
        &RENT_SYSVAR_ID,
    ) || !keys_eq(&accounts.clock, &CLOCK_SYSVAR_ID) || !keys_eq(
        &accounts.bpf_loader_upgradeable_program,
        &LOADER_ID,
    ) || !keys_eq(&accounts.system_program, &SYSTEM_PROGRAM_ID) {
        return Err(TokenBridgeError::InvalidAccount);
    }
    Ok(bump)
}

/// Whether the presented claim account is at `claim_address`, the derived location of
/// the message's claim record.
pub open spec fn claim_account_ok(
    accounts: UpgradeContract,
    claim_address: Option<(Seq<u8>, u8)>,
) -> bool {
    claim_address is Some && (claim_address->0).0 == accounts.claim@
}

/// Checks the presented claim account against `claim_address`.
pub fn check_claim_account(
    accounts: &UpgradeContract,
    claim_address: &Option<([u8; 32], u8)>,
) -> (r: bool)
    ensures
        r == claim_account_ok(*accounts, found_view(*claim_address)),
{
    match claim_address {
        Some((address, _)) => keys_eq(address, &accounts.claim),
        None => false,
    }
}

/// What processing `msg` with `accounts` gives where `claims` have been made: the
/// bump that signs the loader call, or the error.
pub open spec fn upgrade_contract_spec(
    deployment: Deployment,
    msg: GovernanceMessage,
    accounts: UpgradeContract,
    claims: Set<ClaimKey>,
) -> Result<u8, TokenBridgeError> {
    match accounts_spec(
        accounts,
        deployment.program_id@,
        upgrade_authority_of(deployment.program_id@),
        program_data_address(deployment.program_id@),
    ) {
        Err(e) => Err(e),
        Ok(bump) => match validate_spec(msg, deployment.chain, accounts.buffer) {
            Err(e) => Err(e),
            Ok(_) => if !claim_account_ok(
                accounts,
                claim_address_of(key_of(msg), deployment.program_id@),
            ) {
                Err(TokenBridgeError::InvalidAccount)
            } else if claims.contains(key_of(msg)) {
                Err(TokenBridgeError::AlreadyExecuted)
            } else {
                Ok(bump)
            },
        },
    }
}

/// The claims after processing `msg`: its identity is added exactly where it succeeds.
pub open spec fn claims_after(
    deployment: Deployment,
    msg: GovernanceMessage,
    accounts: UpgradeContract,
    claims: Set<ClaimKey>,
) -> Set<ClaimKey> {
    if upgrade_contract_spec(deployment, msg, accounts, claims) is Ok {
        claims.insert(key_of(msg))
    } else {
        claims
    }
}

/// Processes a contract upgrade decree: checks the accounts, validates the decree,
/// checks the claim account against the message identity's derived location, claims
/// that identity, and returns the loader call that replaces the
/// executable with the buffer, signed by the upgrade authority. The claim is made
/// before the call is handed out, and is kept whatever the loader does.
pub fn upgrade_contract(
    deployment: &Deployment,
    msg: &GovernanceMessage,
    accounts: &UpgradeContract,
    claims: &mut ClaimTable,
) -> (r: Result<UpgradeCall, TokenBridgeError>)
    requires
        old(claims).wf(),
    ensures
        final(claims).wf(),
        final(claims)@ == claims_after(*deployment, *msg, *accounts, old(claims)@),
        match r {
            Ok(call) => {
                &&& upgrade_contract_spec(*deployment, *msg, *accounts, old(claims)@) == Ok::<
                    u8,
                    TokenBridgeError,
                >(call.signer_bump)
                &&& call.signer_seed@ == UPGRADE_SEED_PREFIX@
                &&& is_upgrade_instruction(
                    call.instruction,
                    deployment.program_id@,
                    accounts.buffer@,
                    accounts.upgrade_authority@,
                    accounts.spill@,
                )
            },
            Err(e) => upgrade_contract_spec(*deployment, *msg, *accounts, old(claims)@) == Err::<
                u8,
                TokenBridgeError,
            >(e),
        },
{
    let authority = derive_upgrade_authority(&deployment.program_id);
    let program_data = derive_program_data(&deployment.program_id);
    let bump = match check_upgrade_accounts(
        accounts,
        &deployment.program_id,
        &authority,
        &program_data,
    ) {
        Ok(b) => b,
        Err(e) => return Err(e),
    };
    if let Err(e) = validate(msg, deployment.chain, &accounts.buffer) {
        return Err(e);
    }
    let key = ClaimKey {
        emitter_chain: msg.emitter_chain,
        emitter_address: msg.emitter_address,
        sequence: msg.sequence,
    };
    let claim_address = derive_claim_address(&key, &deployment.program_id);
    if !check_claim_account(accounts, &claim_address) {
        return Err(TokenBridgeError::InvalidAccount);
    }
    if let Err(e) = claims.claim(key) {
        return Err(e);
    }
    let instruction = loader_upgrade(
        &deployment.program_id,
        &accounts.buffer,
        &accounts.upgrade_authority,
        &accounts.spill,
    );
    let signer_seed = bytes_to_vec(&UPGRADE_SEED_PREFIX);
    Ok(UpgradeCall { instruction, signer_seed, signer_bump: bump })
}

/// What the instruction returns once the loader call has run: success, or
/// `PrivilegedOperationFailed` where the loader failed.
pub open spec fn upgrade_outcome_spec(loader_succeeded: bool) -> Result<(), TokenBridgeError> {
    if loader_succeeded {
        Ok(())
    } else {
        Err(TokenBridgeError::PrivilegedOperationFailed)
    }
}

/// Maps the loader's outcome to the instruction's result.
pub fn upgrade_outcome(loader_succeeded: bool) -> (r: Result<(), TokenBridgeError>)
    ensures
        r == upgrade_outcome_spec(loader_succeeded),
{
    if loader_succeeded {
        Ok(())
    } else {
        Err(TokenBridgeError::PrivilegedOperationFailed)
    }
}

/// A decree for another chain is rejected with `GovernanceForAnotherChain` by the
/// validator, and processing it creates no claim.
pub proof fn decree_for_another_chain_is_rejected(
    deployment: Deployment,
    msg: GovernanceMessage,
    accounts: UpgradeContract,
    claims: Set<ClaimKey>,
    decree: ContractUpgradeDecree,
)
    requires
        msg.payload == Some(GovernanceAction::ContractUpgrade(decree)),
        decree.chain != deployment.chain,
    ensures
        validate_spec(msg, deployment.chain, accounts.buffer) == Err::<
            ContractUpgradeDecree,
            TokenBridgeError,
        >(TokenBridgeError::GovernanceForAnotherChain),
        upgrade_contract_spec(deployment, msg, accounts, claims) is Err,
        claims_after(deployment, msg, accounts, claims) == claims,
{
}

/// A decree whose implementation is not the presented buffer is rejected with
/// `ImplementationMismatch` before any claim is made; the validator gives the same
/// answer each time, since it reads nothing but its arguments.
pub proof fn mismatched_implementation_is_rejected(
    deployment: Deployment,
    msg: GovernanceMessage,
    accounts: UpgradeContract,
    claims: Set<ClaimKey>,
    decree: ContractUpgradeDecree,
)
    requires
        msg.payload == Some(GovernanceAction::ContractUpgrade(decree)),
        decree.chain == deployment.chain,
        decree.implementation@ != accounts.buffer@,
    ensures
        validate_spec(msg, deployment.chain, accounts.buffer) == Err::<
            ContractUpgradeDecree,
            TokenBridgeError,
        >(TokenBridgeError::ImplementationMismatch),
        accounts_spec(
            accounts,
            deployment.program_id@,
            upgrade_authority_of(deployment.program_id@),
            program_data_address(deployment.program_id@),
        ) is Ok ==> upgrade_contract_spec(deployment, msg, accounts, claims) == Err::<
            u8,
            TokenBridgeError,
        >(TokenBridgeError::ImplementationMismatch),
        claims_after(deployment, msg, accounts, claims) == claims,
{
}

/// A valid decree with valid accounts succeeds the first time its identity is
/// presented; presenting the same identity again fails with `AlreadyExecuted`, hands
/// out no second loader call, and leaves the claims as they were.
pub proof fn decree_executes_at_most_once(
    deployment: Deployment,
    msg: GovernanceMessage,
    accounts: UpgradeContract,
    again: UpgradeContract,
    claims: Set<ClaimKey>,
)
    requires
        accounts_spec(
            accounts,
            deployment.program_id@,
            upgrade_authority_of(deployment.program_id@),
            program_data_address(deployment.program_id@),
        ) is Ok,
        validate_spec(msg, deployment.chain, accounts.buffer) is Ok,
        claim_account_ok(accounts, claim_address_of(key_of(msg), deployment.program_id@)),
        !claims.contains(key_of(msg)),
    ensures
        upgrade_contract_spec(deployment, msg, accounts, claims) is Ok,
        claims_after(deployment, msg, accounts, claims) == claims.insert(key_of(msg)),
        upgrade_contract_spec(
            deployment,
            msg,
            accounts,
            claims_after(deployment, msg, accounts, claims),
        ) == Err::<u8, TokenBridgeError>(TokenBridgeError::AlreadyExecuted),
        upgrade_contract_spec(
            deployment,
            msg,
            again,
            claims_after(deployment, msg, accounts, claims),
        ) is Err,
        claims_after(
            deployment,
            msg,
            again,
            claims_after(deployment, msg, accounts, claims),
        ) == claims_after(deployment, msg, accounts, claims),
{
}

/// Once processing has claimed a message's identity, the claim stays whatever the
/// loader does with the call: a failed upgrade gives `PrivilegedOperationFailed`, and
/// the same identity presented again fails with `AlreadyExecuted`.
pub proof fn claim_outlives_failed_upgrade(
    deployment: Deployment,
    msg: GovernanceMessage,
    accounts: UpgradeContract,
    claims: Set<ClaimKey>,
    loader_succeeded: bool,
)
    requires
        upgrade_contract_spec(deployment, msg, accounts, claims) is Ok,
    ensures
        !loader_succeeded ==> upgrade_outcome_spec(loader_succeeded) == Err::<(), TokenBridgeError>(
            TokenBridgeError::PrivilegedOperationFailed,
        ),
        claims_after(deployment, msg, accounts, claims).contains(key_of(msg)),
        upgrade_contract_spec(
            deployment,
            msg,
            accounts,
            claims_after(deployment, msg, accounts, claims),
        ) == Err::<u8, TokenBridgeError>(TokenBridgeError::AlreadyExecuted),
{
}

} // verus!
