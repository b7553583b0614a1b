use svm_sp1_test_lib::account::{AccountRecord, AccountStore};
use svm_sp1_test_lib::harness::{new_transfer, run};
use svm_sp1_test_lib::outcome::{
    EngineError, ExecutionOutcome, RejectReason, TransactionError, ValidationError,
};
use svm_sp1_test_lib::pubkey::{system_program_id, Pubkey};
use svm_sp1_test_lib::registry::{Builtin, ProgramRegistry, BUILTIN_ACCOUNT_LAMPORTS};
use svm_sp1_test_lib::{distinct_user_keys, transfer_between, transfer_sols, LAMPORTS_PER_SIGNATURE};

fn key(byte: u8) -> Pubkey {
    Pubkey { bytes: [byte; 32] }
}

fn ledger(accounts: &[(Pubkey, u64)]) -> (AccountStore, ProgramRegistry) {
    let mut store = AccountStore::new();
    for (id, lamports) in accounts {
        store.set(*id, AccountRecord::new(*id, *lamports, system_program_id()));
    }
    let mut registry = ProgramRegistry::new();
    registry.register_builtin(&mut store, system_program_id(), Builtin::SystemTransfer);
    (store, registry)
}

fn lamports(store: &AccountStore, id: &Pubkey) -> Option<u64> {
    store.get(id).map(|record| record.lamports)
}

#[test]
fn test_transfer_sols() {
    let alice_starting_lamports = 1_000_000;
    let bob_starting_lamports = 1_000_000;
    let amount = 666;
    let result = transfer_sols(alice_starting_lamports, bob_starting_lamports, amount);
    assert!(result.is_ok());
    let (alice, bob) = result.unwrap();
    assert_eq!(alice, alice_starting_lamports - amount - LAMPORTS_PER_SIGNATURE);
    assert_eq!(bob, bob_starting_lamports + amount);
}

#[test]
fn transfer_of_666_is_executed() {
    let (alice, bob) = (key(7), key(9));
    let (mut store, registry) = ledger(&[(alice, 1_000_000), (bob, 1_000_000)]);
    let outcome = run(&new_transfer(alice, bob, 666), &mut store, &registry, 5000);
    // 1_000_000 - 5_000 - 666 and 1_000_000 + 666
    match outcome {
        ExecutionOutcome::Executed { modified_accounts } => {
            assert_eq!(modified_accounts.len(), 2);
            assert_eq!(modified_accounts[0].id, alice);
            assert_eq!(modified_accounts[0].lamports, 994_334);
            assert_eq!(modified_accounts[1].id, bob);
            assert_eq!(modified_accounts[1].lamports, 1_000_666);
        }
        other => panic!("not executed: {:?}", other),
    }
    assert_eq!(lamports(&store, &alice), Some(994_334));
    assert_eq!(lamports(&store, &bob), Some(1_000_666));
}

#[test]
fn sender_below_fee_is_rejected() {
    let (alice, bob) = (key(7), key(9));
    let (mut store, registry) = ledger(&[(alice, 100), (bob, 0)]);
    let outcome = run(&new_transfer(alice, bob, 1), &mut store, &registry, 5000);
    assert_eq!(
        outcome,
        ExecutionOutcome::Rejected {
            reason: RejectReason::Validation(ValidationError::InsufficientFeeBalance)
        }
    );
    assert_eq!(lamports(&store, &alice), Some(100));
    assert_eq!(lamports(&store, &bob), Some(0));
}

#[test]
fn funded_transfer_loses_only_the_fee() {
    let (alice, bob) = (key(1), key(2));
    let (a0, b0, amount, fee) = (40_000u64, 30_000u64, 12_345u64, 5000u64);
    let (mut store, registry) = ledger(&[(alice, a0), (bob, b0)]);
    let outcome = run(&new_transfer(alice, bob, amount), &mut store, &registry, fee);
    assert!(matches!(outcome, ExecutionOutcome::Executed { .. }));
    let sender = lamports(&store, &alice).unwrap();
    let receiver = lamports(&store, &bob).unwrap();
    assert_eq!(sender, 22_655);
    assert_eq!(receiver, 42_345);
    assert_eq!(a0 + b0 - (sender + receiver), fee);
    assert_eq!(lamports(&store, &system_program_id()), Some(BUILTIN_ACCOUNT_LAMPORTS));
}

#[test]
fn unfunded_transfer_costs_the_fee_at_most() {
    let (alice, bob) = (key(1), key(2));
    let (mut store, registry) = ledger(&[(alice, 10_000), (bob, 77)]);
    let outcome = run(&new_transfer(alice, bob, 5_001), &mut store, &registry, 5000);
    assert_eq!(outcome, ExecutionOutcome::FeesOnly { reason: EngineError::InsufficientFunds });
    assert_eq!(lamports(&store, &alice), Some(5_000));
    assert_eq!(lamports(&store, &bob), Some(77));

    let (mut store, registry) = ledger(&[(alice, 4_999), (bob, 77)]);
    let outcome = run(&new_transfer(alice, bob, 0), &mut store, &registry, 5000);
    assert!(matches!(outcome, ExecutionOutcome::Rejected { .. }));
    assert_eq!(lamports(&store, &alice), Some(4_999));
    assert_eq!(lamports(&store, &bob), Some(77));
}

#[test]
fn identical_ledgers_end_identically() {
    let (alice, bob) = (key(3), key(4));
    for amount in [0u64, 1, 995_000, 995_001, u64::MAX] {
        let (mut first, registry) = ledger(&[(alice, 1_000_000), (bob, 5)]);
        let (mut second, _) = ledger(&[(alice, 1_000_000), (bob, 5)]);
        let tx = new_transfer(alice, bob, amount);
        let one = run(&tx, &mut first, &registry, 5000);
        let two = run(&tx, &mut second, &registry, 5000);
        assert_eq!(one, two);
        for id in [alice, bob, system_program_id()] {
            assert_eq!(first.get(&id), second.get(&id));
        }
    }
}

#[test]
fn second_run_charges_the_fee_again() {
    let (alice, bob) = (key(3), key(4));
    let (mut store, registry) = ledger(&[(alice, 20_000), (bob, 0)]);
    let tx = new_transfer(alice, bob, 1_000);
    let first = run(&tx, &mut store, &registry, 5000);
    assert!(matches!(first, ExecutionOutcome::Executed { .. }));
    assert_eq!(lamports(&store, &alice), Some(14_000));
    let second = run(&tx, &mut store, &registry, 5000);
    assert!(matches!(second, ExecutionOutcome::Executed { .. }));
    assert_ne!(first, second);
    assert_eq!(lamports(&store, &alice), Some(8_000));
    assert_eq!(lamports(&store, &bob), Some(2_000));
}

#[test]
fn zero_amount_costs_only_the_fee() {
    assert_eq!(transfer_sols(1_000_000, 250, 0), Ok((995_000, 250)));
}

#[test]
fn draining_transfer_leaves_zero() {
    assert_eq!(transfer_sols(1_000_000, 250, 995_000), Ok((0, 995_250)));
    assert_eq!(transfer_sols(5_000, 0, 0), Ok((0, 0)));
}

#[test]
fn one_lamport_too_many_fails_for_want_of_funds() {
    assert_eq!(
        transfer_sols(1_000_000, 250, 995_001),
        Err(TransactionError::Engine(EngineError::InsufficientFunds))
    );
}

#[test]
fn sender_below_fee_moves_nothing() {
    assert_eq!(
        transfer_sols(100, 0, 1),
        Err(TransactionError::Validation(ValidationError::InsufficientFeeBalance))
    );
    assert_eq!(
        transfer_sols(4_999, 0, 0),
        Err(TransactionError::Validation(ValidationError::InsufficientFeeBalance))
    );
}

#[test]
fn receiver_without_room_fails_with_overflow() {
    assert_eq!(
        transfer_sols(u64::MAX, u64::MAX, 1),
        Err(TransactionError::Engine(EngineError::ArithmeticOverflow))
    );
    assert_eq!(transfer_sols(u64::MAX, u64::MAX - 1, 1), Ok((u64::MAX - 5_001, u64::MAX)));
}

#[test]
fn unknown_receiver_is_created_with_the_amount() {
    let (alice, bob) = (key(5), key(6));
    let (mut store, registry) = ledger(&[(alice, 50_000)]);
    assert_eq!(store.get(&bob), None);
    let outcome = run(&new_transfer(alice, bob, 1_234), &mut store, &registry, 5000);
    let created = AccountRecord::new(bob, 1_234, system_program_id());
    match outcome {
        ExecutionOutcome::Executed { modified_accounts } => {
            assert_eq!(modified_accounts.len(), 2);
            assert_eq!(modified_accounts[1], created);
        }
        other => panic!("not executed: {:?}", other),
    }
    assert_eq!(store.get(&bob), Some(created));
    assert_eq!(lamports(&store, &alice), Some(43_766));
}

#[test]
fn transfer_between_given_keys() {
    assert_eq!(transfer_between(key(1), key(2), 1_000_000, 1_000_000, 666), Ok((994_334, 1_000_666)));
    assert_eq!(
        transfer_between(key(1), key(2), 5_665, 0, 666),
        Err(TransactionError::Engine(EngineError::InsufficientFunds))
    );
}

#[test]
fn transfer_to_oneself_is_a_conflict() {
    assert_eq!(
        transfer_between(key(1), key(1), 1_000_000, 1_000_000, 666),
        Err(TransactionError::Engine(EngineError::AccountConflict))
    );
}

#[test]
fn transfer_between_reserved_keys() {
    // The program's account replaces the receiver's: it starts with 5_000.
    assert_eq!(
        transfer_between(key(1), system_program_id(), 1_000_000, 1_000_000, 666),
        Ok((994_334, 5_666))
    );
    // The program's account replaces the sender's, and cannot pay fees.
    assert_eq!(
        transfer_between(system_program_id(), key(2), 1_000_000, 1_000_000, 666),
        Err(TransactionError::Validation(ValidationError::UnknownAccount))
    );
}

#[test]
fn user_keys_are_kept_or_replaced() {
    assert_eq!(distinct_user_keys(key(8), key(9)), (key(8), key(9)));
    for (first, second) in [
        (key(8), key(8)),
        (system_program_id(), key(9)),
        (key(8), system_program_id()),
    ] {
        let (one, two) = distinct_user_keys(first, second);
        assert_ne!(one, two);
        assert_ne!(one, system_program_id());
        assert_ne!(two, system_program_id());
    }
}
