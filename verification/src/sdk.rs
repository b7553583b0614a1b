use vstd::prelude::*;
use vstd::string::StringSliceAdditionalSpecFns;
use solana_sdk::account::ReadableAccount;
use solana_sdk::signer::Signer;
use crate::account::{AccountRecord, AccountView};
use crate::pubkey::{native_loader_id, system_program_id, Pubkey};
use crate::transaction::{transfer_payload, AccountMeta, Instruction, InstructionView};

verus! {

/// Draws a new key pair with `solana_sdk::signature::Keypair::new` and hands
/// out its public key. The pair comes from the operating system's random
/// source, so nothing is claimed of the key: two draws may even be equal.
#[verifier::external_body]
pub(crate) fn fresh_pubkey() -> (key: Pubkey) {
    Pubkey { bytes: solana_sdk::signature::Keypair::new().pubkey().to_bytes() }
}

/// The instruction that asks the system program to move `lamports` from
/// `from` to `to`: `from` signs and is writable, `to` is writable.
pub open spec fn system_transfer(from: Pubkey, to: Pubkey, lamports: u64) -> InstructionView {
    InstructionView {
        program_id: system_program_id(),
        accounts: seq![
            AccountMeta { pubkey: from, is_signer: true, is_writable: true },
            AccountMeta { pubkey: to, is_signer: false, is_writable: true },
        ],
        data: transfer_payload(lamports),
    }
}

/// Builds a transfer with `solana_sdk::system_instruction::transfer`. The
/// contract claims what that function's source shows: the system program as
/// the handler, the sender as a writable signer, the receiver as writable,
/// and as payload the operation's number 2 in four little-endian bytes
/// followed by the amount in eight.
#[verifier::external_body]
pub(crate) fn system_transfer_instruction(from: &Pubkey, to: &Pubkey, lamports: u64) -> (ix: Instruction)
    ensures
        ix@ == system_transfer(*from, *to, lamports),
{
    let from = solana_sdk::pubkey::Pubkey::from(from.bytes);
    let to = solana_sdk::pubkey::Pubkey::from(to.bytes);
    let ix = solana_sdk::system_instruction::transfer(&from, &to, lamports);
    Instruction {
        program_id: Pubkey { bytes: ix.program_id.to_bytes() },
        accounts: ix.accounts.iter().map(|meta| AccountMeta {
            pubkey: Pubkey { bytes: meta.pubkey.to_bytes() },
            is_signer: meta.is_signer,
            is_writable: meta.is_writable,
        }).collect(),
        data: ix.data,
    }
}

/// The account of a builtin program called `name`: owned by the native
/// loader, executable, with the name's bytes as its data.
pub open spec fn loadable(id: Pubkey, name: &str, lamports: u64, rent_epoch: u64) -> AccountView {
    AccountView {
        id,
        lamports,
        owner: native_loader_id(),
        data: name.spec_bytes(),
        executable: true,
        rent_epoch,
    }
}

/// Makes a builtin program's account with
/// `solana_sdk::native_loader::create_loadable_account_with_fields` and files
/// it under `id`. The contract claims what that function's source shows: the
/// balance and epoch marker as given, the native loader as owner, the
/// name's bytes as data, and the executable flag set.
#[verifier::external_body]
pub(crate) fn loadable_account(id: Pubkey, name: &str, lamports: u64, rent_epoch: u64) -> (record: AccountRecord)
    ensures
        record@ == loadable(id, name, lamports, rent_epoch),
{
    let account = solana_sdk::native_loader::create_loadable_account_with_fields(
        name,
        (lamports, rent_epoch),
    );
    AccountRecord {
        id,
        lamports: account.lamports(),
        owner: Pubkey { bytes: account.owner().to_bytes() },
        data: account.data().to_vec(),
        executable: account.executable(),
        rent_epoch: account.rent_epoch(),
    }
}

} // verus!
