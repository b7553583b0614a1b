use solana_sdk::account::ReadableAccount;
use svm_sp1_test_lib::account::AccountStore;
use svm_sp1_test_lib::harness::new_transfer;
use svm_sp1_test_lib::pubkey::{native_loader_id, system_program_id, Pubkey};
use svm_sp1_test_lib::registry::{Builtin, ProgramRegistry, BUILTIN_ACCOUNT_LAMPORTS};
use svm_sp1_test_lib::transaction::decode_transfer;
use svm_sp1_test_lib::LAMPORTS_PER_SIGNATURE;

#[test]
fn well_known_identifiers_are_those_of_the_sdk() {
    assert_eq!(system_program_id().bytes, solana_sdk::system_program::id().to_bytes());
    assert_eq!(native_loader_id().bytes, solana_sdk::native_loader::id().to_bytes());
}

#[test]
fn fee_rate_is_that_of_the_sdk() {
    assert_eq!(
        LAMPORTS_PER_SIGNATURE,
        solana_sdk::fee::FeeStructure::default().lamports_per_signature
    );
}

#[test]
fn transfer_instruction_is_that_of_the_sdk() {
    let from = solana_sdk::pubkey::Pubkey::new_unique();
    let to = solana_sdk::pubkey::Pubkey::new_unique();
    for amount in [0u64, 666, 1 << 40, u64::MAX] {
        let theirs = solana_sdk::system_instruction::transfer(&from, &to, amount);
        let ours = new_transfer(
            Pubkey { bytes: from.to_bytes() },
            Pubkey { bytes: to.to_bytes() },
            amount,
        );
        let ix = &ours.instructions[0];
        assert_eq!(ix.program_id.bytes, theirs.program_id.to_bytes());
        assert_eq!(ix.data, theirs.data);
        assert_eq!(decode_transfer(&theirs.data), Some(amount));
        assert_eq!(ix.accounts.len(), theirs.accounts.len());
        for (mine, other) in ix.accounts.iter().zip(theirs.accounts.iter()) {
            assert_eq!(mine.pubkey.bytes, other.pubkey.to_bytes());
            assert_eq!(mine.is_signer, other.is_signer);
            assert_eq!(mine.is_writable, other.is_writable);
        }
    }
}

#[test]
fn program_account_is_that_of_the_sdk() {
    let theirs = solana_sdk::native_loader::create_loadable_account_with_fields(
        "system_program",
        (BUILTIN_ACCOUNT_LAMPORTS, 0),
    );
    let mut store = AccountStore::new();
    let mut registry = ProgramRegistry::new();
    registry.register_builtin(&mut store, system_program_id(), Builtin::SystemTransfer);
    let ours = store.get(&system_program_id()).unwrap();
    assert_eq!(Builtin::SystemTransfer.name(), "system_program");
    assert_eq!(ours.lamports, theirs.lamports());
    assert_eq!(ours.owner.bytes, theirs.owner().to_bytes());
    assert_eq!(ours.data, theirs.data().to_vec());
    assert_eq!(ours.executable, theirs.executable());
    assert_eq!(ours.rent_epoch, theirs.rent_epoch());
}
