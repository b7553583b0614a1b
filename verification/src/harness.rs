use vstd::prelude::*;
use crate::account::{AccountStore, AccountView};
use crate::engine::{execute, execution, execution_outcome, execution_store, instructions_applied, records_of};
use crate::fee::{collect, fee_collection};
use crate::outcome::{EngineError, ExecutionOutcome, OutcomeView, RejectReason, ValidationError};
use crate::pubkey::{system_program_id, Pubkey};
use crate::registry::{account_or_empty, Builtin, ProgramRegistry};
use crate::sdk::{system_transfer, system_transfer_instruction};
use crate::transaction::{keys_of_instructions, keys_of_metas, unsigned_slots, zero_blockhash};
use crate::transaction::{Instruction, Transaction, TransactionView};
use crate::validator::{fee, validate, validation};

verus! {

/// How the run of `tx` on `store` at the rate `fee_rate` ends: rejected
/// where validation or the charge fails, else as the execution ends.
pub open spec fn run_outcome(
    tx: TransactionView,
    store: Map<Pubkey, AccountView>,
    registry: Map<Pubkey, Builtin>,
    fee_rate: u64,
) -> OutcomeView {
    match validation(tx, store, fee_rate) {
        Err(e) => OutcomeView::Rejected { reason: RejectReason::Validation(e) },
        Ok(checked) => match fee_collection(
            store,
            tx.fee_payer,
            checked.lamports_per_signature,
            tx.signatures.len() as u64,
        ) {
            Err(e) => OutcomeView::Rejected { reason: RejectReason::Fee(e) },
            Ok(charged) => execution_outcome(tx, charged, registry),
        },
    }
}

/// The ledger after the run of `tx` on `store`: untouched where the
/// transaction is rejected, else charged the fee and then executed on.
pub open spec fn run_store(
    tx: TransactionView,
    store: Map<Pubkey, AccountView>,
    registry: Map<Pubkey, Builtin>,
    fee_rate: u64,
) -> Map<Pubkey, AccountView> {
    match validation(tx, store, fee_rate) {
        Err(_) => store,
        Ok(checked) => match fee_collection(
            store,
            tx.fee_payer,
            checked.lamports_per_signature,
            tx.signatures.len() as u64,
        ) {
            Err(_) => store,
            Ok(charged) => execution_store(tx, charged, registry),
        },
    }
}

/// Runs one transaction: validates it, charges the fee, executes the
/// instructions. Each step is taken once and none is gone back on: a
/// transaction that fails validation or the charge is `Rejected` and leaves
/// the ledger alone; one whose instruction fails is `FeesOnly` and leaves
/// only the fee taken; else it is `Executed`.
pub fn run(tx: &Transaction, store: &mut AccountStore, registry: &ProgramRegistry, fee_rate: u64) -> (outcome: ExecutionOutcome)
    ensures
        outcome@ == run_outcome(tx@, old(store)@, registry@, fee_rate),
        final(store)@ == run_store(tx@, old(store)@, registry@, fee_rate),
{
    let checked = match validate(tx, store, fee_rate) {
        Ok(checked) => checked,
        Err(e) => {
            return ExecutionOutcome::Rejected { reason: RejectReason::Validation(e) };
        },
    };
    match collect(
        &tx.fee_payer,
        checked.lamports_per_signature,
        tx.signatures.len() as u64,
        store,
    ) {
        Ok(()) => {},
        Err(e) => {
            return ExecutionOutcome::Rejected { reason: RejectReason::Fee(e) };
        },
    }
    execute(tx, store, registry)
}

/// What a run leaves of the ledger when it does not go through, for any
/// transaction. A rejected run changes nothing. A run that gets as far as
/// the charge finds the fee covered, since validation looked at the same
/// ledger: the charge itself never rejects. A run that is `FeesOnly` leaves
/// the ledger as it was but for the fee payer's balance, which is lower by
/// exactly the fee.
pub proof fn lemma_unfinished_run(
    tx: TransactionView,
    store: Map<Pubkey, AccountView>,
    registry: Map<Pubkey, Builtin>,
    fee_rate: u64,
)
    ensures
        ({
            let outcome = run_outcome(tx, store, registry, fee_rate);
            let after = run_store(tx, store, registry, fee_rate);
            let owed = fee(fee_rate, tx.signatures.len() as u64);
            &&& outcome is Rejected ==> after == store
            &&& outcome is Rejected ==> validation(tx, store, fee_rate) is Err
            &&& !(outcome is Rejected) ==> store.contains_key(tx.fee_payer)
                && store[tx.fee_payer].lamports >= owed
            &&& outcome is FeesOnly ==> after == store.insert(
                tx.fee_payer,
                store[tx.fee_payer].with_lamports((store[tx.fee_payer].lamports - owed) as u64),
            )
        }),
{
}

/// The transaction by which `sender` moves `amount` to `receiver`, pays
/// the fee and is the only one to sign.
pub open spec fn transfer_transaction(sender: Pubkey, receiver: Pubkey, amount: u64) -> TransactionView {
    TransactionView {
        fee_payer: sender,
        instructions: seq![system_transfer(sender, receiver, amount)],
        recent_blockhash: zero_blockhash(),
        signatures: unsigned_slots(seq![sender]),
    }
}

/// The balance of the account `id` of `store`; 0 where there is none.
pub open spec fn balance(store: Map<Pubkey, AccountView>, id: Pubkey) -> u64 {
    if store.contains_key(id) {
        store[id].lamports
    } else {
        0
    }
}

/// Whether `store` and `registry` are set up for `sender` to pay for a
/// transfer to `receiver`: the system program handles transfers, `sender`
/// is an account of the system program, and `receiver` is another account.
pub open spec fn ready_for_transfer(
    store: Map<Pubkey, AccountView>,
    registry: Map<Pubkey, Builtin>,
    sender: Pubkey,
    receiver: Pubkey,
) -> bool {
    &&& registry.contains_key(system_program_id())
    &&& registry[system_program_id()] == Builtin::SystemTransfer
    &&& store.contains_key(sender)
    &&& store[sender].owner == system_program_id()
    &&& sender != receiver
}

/// `store` with the balance of `id` set to `lamports`; an account that is
/// not there is created empty first.
pub open spec fn with_balance(store: Map<Pubkey, AccountView>, id: Pubkey, lamports: u64) -> Map<Pubkey, AccountView> {
    store.insert(id, account_or_empty(store, id).with_lamports(lamports))
}

/// The accounts that a transfer signs for and may change.
pub proof fn lemma_transfer_keys(sender: Pubkey, receiver: Pubkey, amount: u64)
    ensures
        transfer_transaction(sender, receiver, amount).signer_keys() == seq![sender],
        transfer_transaction(sender, receiver, amount).writable_keys() == if sender == receiver {
            seq![sender]
        } else {
            seq![sender, receiver]
        },
{
    let tx = transfer_transaction(sender, receiver, amount);
    let metas = tx.instructions[0].accounts;
    reveal_with_fuel(keys_of_instructions, 2);
    reveal_with_fuel(keys_of_metas, 3);
    assert(seq![sender].contains(sender)) by {
        assert(seq![sender][0] == sender);
    }
    assert(keys_of_metas(seq![sender], metas, 1, true) == seq![sender]);
    assert(tx.signer_keys() =~= seq![sender]);
    assert(keys_of_metas(seq![sender], metas, 1, false) == seq![sender]);
    if sender != receiver {
        assert(!seq![sender].contains(receiver));
        assert(tx.writable_keys() =~= seq![sender, receiver]);
    } else {
        assert(tx.writable_keys() =~= seq![sender]);
    }
}

/// The transaction by which `sender` moves `amount` to `receiver`, pays
/// the fee and is the only one to sign, with an empty signature slot.
pub fn new_transfer(sender: Pubkey, receiver: Pubkey, amount: u64) -> (tx: Transaction)
    ensures
        tx@ == transfer_transaction(sender, receiver, amount),
{
    let instruction = system_transfer_instruction(&sender, &receiver, amount);
    let mut instructions: Vec<Instruction> = Vec::new();
    instructions.push(instruction);
    let tx = Transaction::new_with_payer(instructions, sender);
    proof {
        lemma_transfer_keys(sender, receiver, amount);
        let expected = transfer_transaction(sender, receiver, amount);
        assert(tx@.instructions =~= expected.instructions);
        assert(tx@.signer_keys() == expected.signer_keys());
    }
    tx
}

/// How the run of a transfer ends, case by case, on a ledger that is ready
/// for it. A sender that cannot cover the fee is rejected and nothing
/// changes. One that covers the fee but not the amount, or whose receiver
/// has no room for the amount, pays the fee and nothing else changes. Else
/// the transfer goes through: the sender pays the fee and the amount, the
/// receiver gets the amount, and the run reports the two accounts.
pub proof fn lemma_transfer_outcomes(
    store: Map<Pubkey, AccountView>,
    registry: Map<Pubkey, Builtin>,
    sender: Pubkey,
    receiver: Pubkey,
    amount: u64,
    fee_rate: u64,
)
    requires
        ready_for_transfer(store, registry, sender, receiver),
    ensures
        ({
            let tx = transfer_transaction(sender, receiver, amount);
            let outcome = run_outcome(tx, store, registry, fee_rate);
            let after = run_store(tx, store, registry, fee_rate);
            if balance(store, sender) < fee_rate {
                &&& outcome == OutcomeView::Rejected {
                    reason: RejectReason::Validation(ValidationError::InsufficientFeeBalance),
                }
                &&& after == store
            } else if balance(store, sender) - fee_rate < amount {
                &&& outcome == OutcomeView::FeesOnly { reason: EngineError::InsufficientFunds }
                &&& after == with_balance(
                    store,
                    sender,
                    (balance(store, sender) - fee_rate) as u64,
                )
            } else if balance(store, receiver) + amount > u64::MAX {
                &&& outcome == OutcomeView::FeesOnly { reason: EngineError::ArithmeticOverflow }
                &&& after == with_balance(
                    store,
                    sender,
                    (balance(store, sender) - fee_rate) as u64,
                )
            } else {
                &&& after == with_balance(
                    with_balance(
                        store,
                        sender,
                        (balance(store, sender) - fee_rate - amount) as u64,
                    ),
                    receiver,
                    (balance(store, receiver) + amount) as u64,
                )
                &&& outcome == OutcomeView::Executed {
                    modified_accounts: seq![after[sender], after[receiver]],
                }
            }
        }),
{
    let tx = transfer_transaction(sender, receiver, amount);
    let ix = system_transfer(sender, receiver, amount);
    assert(tx.instructions[0] == ix);
    assert(tx.signatures[0].signer == sender);
    assert(tx.has_signature(sender));
    assert(tx.signatures.len() as u64 == 1);
    crate::transaction::lemma_transfer_payload_parses(amount);
    lemma_transfer_keys(sender, receiver, amount);
    reveal_with_fuel(instructions_applied, 3);
    reveal_with_fuel(records_of, 3);
    if balance(store, sender) >= fee_rate {
        let charged = with_balance(store, sender, (balance(store, sender) - fee_rate) as u64);
        assert(fee_collection(store, sender, fee_rate, 1) == Ok::<_, crate::outcome::FeeError>(charged));
        assert(execution(tx, charged, registry) == crate::registry::transfer_applied(charged, ix));
        if balance(store, sender) - fee_rate >= amount && balance(store, receiver) + amount
            <= u64::MAX {
            let after = with_balance(
                with_balance(store, sender, (balance(store, sender) - fee_rate - amount) as u64),
                receiver,
                (balance(store, receiver) + amount) as u64,
            );
            assert(crate::registry::transfer_applied(charged, ix).unwrap() =~= after);
            assert(records_of(after, seq![sender, receiver], 2) =~= seq![
                after[sender],
                after[receiver],
            ]);
        }
    }
}

/// A transfer that the sender can afford goes through. Where the sender
/// holds at least the fee and the amount, and the receiver has room for the
/// amount, the run is `Executed`; it reports the sender's account and then
/// the receiver's; the sender ends with its balance less the fee and the
/// amount, the receiver with its balance plus the amount, and every other
/// account is as before. What the two hold together has gone down by
/// exactly the fee.
pub proof fn lemma_funded_transfer_executes(
    store: Map<Pubkey, AccountView>,
    registry: Map<Pubkey, Builtin>,
    sender: Pubkey,
    receiver: Pubkey,
    amount: u64,
    fee_rate: u64,
)
    requires
        ready_for_transfer(store, registry, sender, receiver),
        balance(store, sender) >= fee_rate + amount,
        balance(store, receiver) + amount <= u64::MAX,
    ensures
        ({
            let tx = transfer_transaction(sender, receiver, amount);
            let after = run_store(tx, store, registry, fee_rate);
            &&& run_outcome(tx, store, registry, fee_rate) == OutcomeView::Executed {
                modified_accounts: seq![after[sender], after[receiver]],
            }
            &&& after.contains_key(sender)
            &&& after.contains_key(receiver)
            &&& after[sender] == store[sender].with_lamports(
                (balance(store, sender) - fee_rate - amount) as u64,
            )
            &&& after[receiver] == account_or_empty(store, receiver).with_lamports(
                (balance(store, receiver) + amount) as u64,
            )
            &&& forall|other: Pubkey|
                other != sender && other != receiver ==> after.contains_key(other)
                    == store.contains_key(other) && after[other] == store[other]
            &&& fee_rate == balance(store, sender) + balance(store, receiver) - (
            after[sender].lamports + after[receiver].lamports)
        }),
{
    lemma_transfer_outcomes(store, registry, sender, receiver, amount, fee_rate);
}

/// A transfer that the sender cannot afford does not go through, and costs
/// the sender the fee at most. Where the sender holds less than the fee and
/// the amount together, the run is not `Executed`: it is rejected with the
/// ledger untouched where even the fee is not covered, and else fails for
/// want of funds with only the fee taken from the sender. The receiver is as
/// before either way.
pub proof fn lemma_unfunded_transfer_fails(
    store: Map<Pubkey, AccountView>,
    registry: Map<Pubkey, Builtin>,
    sender: Pubkey,
    receiver: Pubkey,
    amount: u64,
    fee_rate: u64,
)
    requires
        ready_for_transfer(store, registry, sender, receiver),
        amount > balance(store, sender) - fee_rate,
    ensures
        ({
            let tx = transfer_transaction(sender, receiver, amount);
            let outcome = run_outcome(tx, store, registry, fee_rate);
            let after = run_store(tx, store, registry, fee_rate);
            &&& !(outcome is Executed)
            &&& balance(store, sender) < fee_rate ==> after == store && outcome
                == OutcomeView::Rejected {
                reason: RejectReason::Validation(ValidationError::InsufficientFeeBalance),
            }
            &&& balance(store, sender) >= fee_rate ==> outcome == OutcomeView::FeesOnly {
                reason: EngineError::InsufficientFunds,
            }
            &&& balance(after, sender) == balance(store, sender) || balance(after, sender)
                == balance(store, sender) - fee_rate
            &&& after.contains_key(receiver) == store.contains_key(receiver)
            &&& after[receiver] == store[receiver]
        }),
{
    lemma_transfer_outcomes(store, registry, sender, receiver, amount, fee_rate);
}

/// A receiver that the ledger does not know is created empty, as an
/// account of the system program, before it is credited: after a transfer
/// that goes through it holds exactly the amount.
pub proof fn lemma_new_receiver_starts_empty(
    store: Map<Pubkey, AccountView>,
    registry: Map<Pubkey, Builtin>,
    sender: Pubkey,
    receiver: Pubkey,
    amount: u64,
    fee_rate: u64,
)
    requires
        ready_for_transfer(store, registry, sender, receiver),
        !store.contains_key(receiver),
        balance(store, sender) >= fee_rate + amount,
    ensures
        ({
            let tx = transfer_transaction(sender, receiver, amount);
            let after = run_store(tx, store, registry, fee_rate);
            &&& run_outcome(tx, store, registry, fee_rate) is Executed
            &&& after.contains_key(receiver)
            &&& after[receiver] == AccountView::plain(receiver, amount, system_program_id())
        }),
{
    lemma_transfer_outcomes(store, registry, sender, receiver, amount, fee_rate);
}

/// A transfer that is `Executed` had two different accounts, and the run
/// reports the sender's and then the receiver's, whatever the ledger and
/// the registry were.
pub proof fn lemma_executed_transfer_reports_both(
    store: Map<Pubkey, AccountView>,
    registry: Map<Pubkey, Builtin>,
    sender: Pubkey,
    receiver: Pubkey,
    amount: u64,
    fee_rate: u64,
)
    requires
        run_outcome(transfer_transaction(sender, receiver, amount), store, registry, fee_rate)
            is Executed,
    ensures
        ({
            let tx = transfer_transaction(sender, receiver, amount);
            let after = run_store(tx, store, registry, fee_rate);
            &&& sender != receiver
            &&& after.contains_key(sender)
            &&& after.contains_key(receiver)
            &&& run_outcome(tx, store, registry, fee_rate) == OutcomeView::Executed {
                modified_accounts: seq![after[sender], after[receiver]],
            }
        }),
{
    let tx = transfer_transaction(sender, receiver, amount);
    let ix = system_transfer(sender, receiver, amount);
    assert(tx.instructions[0] == ix);
    lemma_transfer_keys(sender, receiver, amount);
    reveal_with_fuel(instructions_applied, 3);
    reveal_with_fuel(records_of, 3);
    let charged = fee_collection(store, sender, fee_rate, tx.signatures.len() as u64).unwrap();
    assert(execution(tx, charged, registry).is_ok());
    assert(execution(tx, charged, registry) == crate::registry::transfer_applied(charged, ix));
    let after = run_store(tx, store, registry, fee_rate);
    assert(records_of(after, seq![sender, receiver], 2) =~= seq![after[sender], after[receiver]]);
}

/// A run depends on nothing but the transaction, the ledger, the registry
/// and the rate: on two ledgers that hold the same accounts it ends in the
/// same way and leaves the same accounts.
pub proof fn lemma_run_is_deterministic(
    tx: TransactionView,
    first: Map<Pubkey, AccountView>,
    second: Map<Pubkey, AccountView>,
    registry: Map<Pubkey, Builtin>,
    fee_rate: u64,
)
    requires
        first =~= second,
    ensures
        run_outcome(tx, first, registry, fee_rate) == run_outcome(tx, second, registry, fee_rate),
        run_store(tx, first, registry, fee_rate) == run_store(tx, second, registry, fee_rate),
{
}

} // verus!
