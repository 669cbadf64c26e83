use vstd::prelude::*;

use solana_program::bpf_loader_upgradeable;
use solana_program::pubkey::Pubkey;

use crate::address::{found_view, program_address_of, single_seed, try_find_program_address};

verus! {

/// Address of the upgradeable loader program.
pub const LOADER_ID: [u8; 32] = [
    2, 168, 246, 145, 78, 136, 161, 176, 226, 16, 21, 62, 247, 99, 174, 43, 0, 194, 185, 61, 22,
    193, 36, 210, 192, 83, 122, 16, 4, 128, 0, 0,
];

/// Address of the rent sysvar.
pub const RENT_SYSVAR_ID: [u8; 32] = [
    6, 167, 213, 23, 25, 44, 92, 81, 33, 140, 201, 76, 61, 74, 241, 127, 88, 218, 238, 8, 155, 161,
    253, 68, 227, 219, 217, 138, 0, 0, 0, 0,
];

/// Address of the clock sysvar.
pub const CLOCK_SYSVAR_ID: [u8; 32] = [
    6, 167, 213, 23, 24, 199, 116, 201, 40, 86, 99, 152, 105, 29, 94, 182, 139, 94, 184, 163, 155,
    75, 109, 92, 115, 85, 91, 33, 0, 0, 0, 0,
];

/// Address of the system program.
pub const SYSTEM_PROGRAM_ID: [u8; 32] = [
    0, 0, 0, 0, 0, 0, 0, 0, 0, 0, 0, 0, 0, 0, 0, 0, 0, 0, 0, 0, 0, 0, 0, 0, 0, 0, 0, 0, 0, 0, 0, 0,
];

/// One account that an instruction reads or writes.
#[derive(Debug, Clone, Copy)]
pub struct InstructionAccount {
    pub key: [u8; 32],
    pub is_signer: bool,
    pub is_writable: bool,
}

/// An instruction for another program, as plain values.
#[derive(Debug, Clone)]
pub struct ProgramInstruction {
    pub program_id: [u8; 32],
    pub accounts: Vec<InstructionAccount>,
    pub data: Vec<u8>,
}

/// The address that the loader keeps `program`'s executable data at.
pub open spec fn program_data_address(program: Seq<u8>) -> Option<(Seq<u8>, u8)> {
    program_address_of(seq![program], LOADER_ID@)
}

/// Derives the address that the loader keeps `program`'s executable data at.
pub fn derive_program_data(program: &[u8; 32]) -> (r: Option<([u8; 32], u8)>)
    ensures
        found_view(r) == program_data_address(program@),
{
    try_find_program_address(&single_seed(program), &LOADER_ID)
}

/// The account list of the loader's upgrade instruction.
pub open spec fn upgrade_accounts_spec(
    program_data: Seq<u8>,
    program: Seq<u8>,
    buffer: Seq<u8>,
    authority: Seq<u8>,
    spill: Seq<u8>,
) -> Seq<(Seq<u8>, bool, bool)> {
    seq![
        (program_data, false, true),
        (program, false, true),
        (buffer, false, true),
        (spill, false, true),
        (RENT_SYSVAR_ID@, false, false),
        (CLOCK_SYSVAR_ID@, false, false),
        (authority, true, false),
    ]
}

/// An account as (key, signer, writable).
pub open spec fn account_view(a: InstructionAccount) -> (Seq<u8>, bool, bool) {
    (a.key@, a.is_signer, a.is_writable)
}

/// `ix` is the loader's instruction to upgrade `program` from `buffer`, signed by
/// `authority`, with the freed lamports going to `spill`.
pub open spec fn is_upgrade_instruction(
    ix: ProgramInstruction,
    program: Seq<u8>,
    buffer: Seq<u8>,
    authority: Seq<u8>,
    spill: Seq<u8>,
) -> bool {
    &&& program_data_address(program) is Some
    &&& ix.program_id@ == LOADER_ID@
    &&& ix.accounts@.map_values(|a: InstructionAccount| account_view(a)) == upgrade_accounts_spec(
        (program_data_address(program)->0).0,
        program,
        buffer,
        authority,
        spill,
    )
    &&& ix.data@ == seq![3u8, 0, 0, 0]
}

/// Relies on solana_program's `bpf_loader_upgradeable::upgrade`: the loader's program
/// id, the seven accounts in this order, and the bincode encoding of the `Upgrade`
/// variant (index 3, as a little-endian `u32`). It derives the program data address
/// with `find_program_address`, which panics where no address is found.
#[verifier::external_body]
pub(crate) fn loader_upgrade(
    program: &[u8; 32],
    buffer: &[u8; 32],
    authority: &[u8; 32],
    spill: &[u8; 32],
) -> (r: ProgramInstruction)
    requires
        program_data_address(program@) is Some,
    ensures
        is_upgrade_instruction(r, program@, buffer@, authority@, spill@),
{
    let k = |a: &[u8; 32]| Pubkey::new_from_array(*a);
    let ix = bpf_loader_upgradeable::upgrade(&k(program), &k(buffer), &k(authority), &k(spill));
    let accounts = ix.accounts.iter().map(
        |m| InstructionAccount { key: m.pubkey.to_bytes(), is_signer: m.is_signer, is_writable: m.is_writable },
    ).collect();
    ProgramInstruction { program_id: ix.program_id.to_bytes(), accounts, data: ix.data }
}

} // verus!
