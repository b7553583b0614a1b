pub mod account;
pub mod engine;
pub mod fee;
pub mod harness;
pub mod outcome;
pub mod pubkey;
pub mod registry;
pub mod sdk;
pub mod transaction;
pub mod validator;

use vstd::prelude::*;
use crate::account::{AccountRecord, AccountStore, AccountView};
use crate::harness::{lemma_executed_transfer_reports_both, lemma_transfer_outcomes};
use crate::harness::{new_transfer, run, run_outcome, transfer_transaction};
use crate::outcome::{EngineError, ExecutionOutcome, OutcomeView, RejectReason, TransactionError, ValidationError};
use crate::pubkey::{system_program_id, Pubkey};
use crate::registry::{Builtin, ProgramRegistry, BUILTIN_ACCOUNT_LAMPORTS};
use crate::sdk::{fresh_pubkey, loadable};

verus! {

/// The fee charged for each signature of a transaction, in lamports.
pub const LAMPORTS_PER_SIGNATURE: u64 = 5000;

/// The ledger that a transfer between two users starts from: the sender's
/// account, then the receiver's, then the system program's, each filed
/// over whatever was filed under the same identifier before.
pub open spec fn seeded_ledger(
    sender: Pubkey,
    receiver: Pubkey,
    sender_lamports: u64,
    receiver_lamports: u64,
) -> Map<Pubkey, AccountView> {
    Map::<Pubkey, AccountView>::empty().insert(
        sender,
        AccountView::plain(sender, sender_lamports, system_program_id()),
    ).insert(
        receiver,
        AccountView::plain(receiver, receiver_lamports, system_program_id()),
    ).insert(
        system_program_id(),
        loadable(
            system_program_id(),
            Builtin::SystemTransfer.name(),
            BUILTIN_ACCOUNT_LAMPORTS,
            0,
        ),
    )
}

/// The registry that knows the system program and nothing else.
pub open spec fn system_registry() -> Map<Pubkey, Builtin> {
    Map::<Pubkey, Builtin>::empty().insert(system_program_id(), Builtin::SystemTransfer)
}

/// What a caller of a transfer is told: the balances of the first two
/// accounts that an executed run reports, else the reason why the run was
/// rejected or failed.
pub open spec fn balances_reported(outcome: OutcomeView) -> Result<(u64, u64), TransactionError> {
    match outcome {
        OutcomeView::Executed { modified_accounts } => Ok(
            (modified_accounts[0].lamports, modified_accounts[1].lamports),
        ),
        OutcomeView::FeesOnly { reason } => Err(TransactionError::Engine(reason)),
        OutcomeView::Rejected { reason: RejectReason::Validation(e) } => Err(
            TransactionError::Validation(e),
        ),
        OutcomeView::Rejected { reason: RejectReason::Fee(e) } => Err(TransactionError::Fee(e)),
    }
}

/// How a transfer of `amount` between the accounts `sender` and `receiver`
/// ends, on a ledger seeded with their balances, at the standard rate.
pub open spec fn transfer_result(
    sender: Pubkey,
    receiver: Pubkey,
    sender_lamports: u64,
    receiver_lamports: u64,
    amount: u64,
) -> Result<(u64, u64), TransactionError> {
    balances_reported(
        run_outcome(
            transfer_transaction(sender, receiver, amount),
            seeded_ledger(sender, receiver, sender_lamports, receiver_lamports),
            system_registry(),
            LAMPORTS_PER_SIGNATURE,
        ),
    )
}

/// Whether `sender` and `receiver` can stand for two users: they differ,
/// and neither is the system program.
pub open spec fn usable_keys(sender: Pubkey, receiver: Pubkey) -> bool {
    sender != receiver && sender != system_program_id() && receiver != system_program_id()
}

/// How a transfer between two users ends, from the balances and the
/// amount alone. The sender pays the fee of one signature first; a sender
/// that cannot is rejected. Then the amount must be covered by what is
/// left, and must fit on top of what the receiver holds.
pub open spec fn expected_transfer(
    sender_lamports: u64,
    receiver_lamports: u64,
    amount: u64,
) -> Result<(u64, u64), TransactionError> {
    if sender_lamports < LAMPORTS_PER_SIGNATURE {
        Err(TransactionError::Validation(ValidationError::InsufficientFeeBalance))
    } else if sender_lamports - LAMPORTS_PER_SIGNATURE < amount {
        Err(TransactionError::Engine(EngineError::InsufficientFunds))
    } else if receiver_lamports + amount > u64::MAX {
        Err(TransactionError::Engine(EngineError::ArithmeticOverflow))
    } else {
        Ok(
            (
                (sender_lamports - LAMPORTS_PER_SIGNATURE - amount) as u64,
                (receiver_lamports + amount) as u64,
            ),
        )
    }
}

/// Between two users the identifiers do not matter: the transfer ends as
/// the balances and the amount say.
pub proof fn lemma_transfer_result(
    sender: Pubkey,
    receiver: Pubkey,
    sender_lamports: u64,
    receiver_lamports: u64,
    amount: u64,
)
    requires
        usable_keys(sender, receiver),
    ensures
        transfer_result(sender, receiver, sender_lamports, receiver_lamports, amount)
            == expected_transfer(sender_lamports, receiver_lamports, amount),
{
    let store = seeded_ledger(sender, receiver, sender_lamports, receiver_lamports);
    lemma_transfer_outcomes(
        store,
        system_registry(),
        sender,
        receiver,
        amount,
        LAMPORTS_PER_SIGNATURE,
    );
}

/// Seeds a ledger with the accounts `sender` and `receiver`, registers the
/// system program, and runs the transfer of `amount` from the one to the
/// other, for which `sender` pays. Returns the two balances afterwards, or
/// why the transfer was rejected or failed.
pub fn transfer_between(
    sender: Pubkey,
    receiver: Pubkey,
    sender_lamports: u64,
    receiver_lamports: u64,
    amount: u64,
) -> (result: Result<(u64, u64), TransactionError>)
    ensures
        result == transfer_result(sender, receiver, sender_lamports, receiver_lamports, amount),
{
    let mut store = AccountStore::new();
    store.set(sender, AccountRecord::new(sender, sender_lamports, system_program_id()));
    store.set(receiver, AccountRecord::new(receiver, receiver_lamports, system_program_id()));
    let mut registry = ProgramRegistry::new();
    registry.register_builtin(&mut store, system_program_id(), Builtin::SystemTransfer);
    let ghost seeded = store@;

    let tx = new_transfer(sender, receiver, amount);
    proof {
        let expected = transfer_transaction(sender, receiver, amount);
        if run_outcome(expected, seeded, registry@, LAMPORTS_PER_SIGNATURE) is Executed {
            lemma_executed_transfer_reports_both(
                seeded,
                registry@,
                sender,
                receiver,
                amount,
                LAMPORTS_PER_SIGNATURE,
            );
        }
    }
    match run(&tx, &mut store, &registry, LAMPORTS_PER_SIGNATURE) {
        ExecutionOutcome::Executed { modified_accounts } => {
            assert(crate::outcome::account_views(modified_accounts@).len() == 2);
            Ok((modified_accounts[0].lamports, modified_accounts[1].lamports))
        },
        ExecutionOutcome::FeesOnly { reason } => Err(TransactionError::Engine(reason)),
        ExecutionOutcome::Rejected { reason: RejectReason::Validation(e) } => Err(
            TransactionError::Validation(e),
        ),
        ExecutionOutcome::Rejected { reason: RejectReason::Fee(e) } => Err(
            TransactionError::Fee(e),
        ),
    }
}

/// `first` and `second` where they can stand for two users; else a fixed
/// pair that can.
pub fn distinct_user_keys(first: Pubkey, second: Pubkey) -> (keys: (Pubkey, Pubkey))
    ensures
        usable_keys(keys.0, keys.1),
        usable_keys(first, second) ==> keys == (first, second),
{
    let system = system_program_id();
    if first == second || first == system || second == system {
        let one = Pubkey { bytes: [1u8; 32] };
        let two = Pubkey { bytes: [2u8; 32] };
        assert(one.bytes[0] == 1 && two.bytes[0] == 2 && system.bytes[0] == 0);
        (one, two)
    } else {
        (first, second)
    }
}

/// Moves `amount` lamports from one newly made account, which starts with
/// `alice_starting_lamports` and pays the fee, to another, which starts
/// with `bob_starting_lamports`. Returns what the two hold afterwards, the
/// sender first, or why nothing was moved.
pub fn transfer_sols(
    alice_starting_lamports: u64,
    bob_starting_lamports: u64,
    amount: u64,
) -> (result: Result<(u64, u64), TransactionError>)
    ensures
        result == expected_transfer(alice_starting_lamports, bob_starting_lamports, amount),
{
    let (alice, bob) = distinct_user_keys(fresh_pubkey(), fresh_pubkey());
    proof {
        lemma_transfer_result(
            alice,
            bob,
            alice_starting_lamports,
            bob_starting_lamports,
            amount,
        );
    }
    transfer_between(alice, bob, alice_starting_lamports, bob_starting_lamports, amount)
}

} // verus!
