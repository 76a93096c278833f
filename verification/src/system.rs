use crate::state::Address;
use anchor_lang::solana_program::pubkey::Pubkey;
use anchor_lang::solana_program::system_instruction;
use vstd::prelude::*;

verus! {

/// One account that an instruction names, and how the instruction uses it.
#[derive(Clone, Copy, Debug, PartialEq, Eq)]
pub struct AccountRole {
    pub address: Address,
    pub is_signer: bool,
    pub is_writable: bool,
}

/// An instruction to the ledger's system program that moves lamports from
/// one account to another.
#[derive(Clone, Debug, PartialEq, Eq)]
pub struct TransferInstruction {
    pub program_id: Address,
    pub accounts: Vec<AccountRole>,
    pub data: Vec<u8>,
}

/// The data of the system program's transfer instruction for `lamports`, as
/// the ledger's own library encodes it.
pub uninterp spec fn transfer_data(lamports: u64) -> Seq<u8>;

/// Whether `instruction` is the system program's transfer of `lamports` from
/// `from` to `to`: it is addressed to the system program, names `from` as a
/// writable signer and `to` as writable, and carries the transfer's data.
pub open spec fn is_system_transfer(
    instruction: TransferInstruction,
    from: Seq<u8>,
    to: Seq<u8>,
    lamports: u64,
) -> bool {
    &&& instruction.program_id@ == Address::spec_native()
    &&& instruction.accounts@.len() == 2
    &&& instruction.accounts@[0].address@ == from
    &&& instruction.accounts@[0].is_signer
    &&& instruction.accounts@[0].is_writable
    &&& instruction.accounts@[1].address@ == to
    &&& !instruction.accounts@[1].is_signer
    &&& instruction.accounts@[1].is_writable
    &&& instruction.data@ == transfer_data(lamports)
}

/// Calls `solana_program::system_instruction::transfer` and hands its result
/// back field by field.
///
/// Believed of it, from its source: the instruction is addressed to the
/// system program, whose address is all zero; it names two accounts, first
/// `from` as a writable signer, then `to` as writable and no signer; and its
/// data depends on `lamports` alone.
#[verifier::external_body]
pub(crate) fn system_transfer(from: &Address, to: &Address, lamports: u64) -> (r:
    TransferInstruction)
    ensures
        r.program_id@ == Address::spec_native(),
        r.accounts@.len() == 2,
        r.accounts@[0].address@ == from@ && r.accounts@[0].is_signer && r.accounts@[0].is_writable,
        r.accounts@[1].address@ == to@ && !r.accounts@[1].is_signer && r.accounts@[1].is_writable,
        r.data@ == transfer_data(lamports),
{
    let from_key = Pubkey::new_from_array(from.bytes);
    let to_key = Pubkey::new_from_array(to.bytes);
    let instruction = system_instruction::transfer(&from_key, &to_key, lamports);
    TransferInstruction {
        program_id: Address { bytes: instruction.program_id.to_bytes() },
        accounts: instruction.accounts.iter().map(
            |meta|
                AccountRole {
                    address: Address { bytes: meta.pubkey.to_bytes() },
                    is_signer: meta.is_signer,
                    is_writable: meta.is_writable,
                },
        ).collect(),
        data: instruction.data,
    }
}

} // verus!
