use vstd::prelude::*;
use crate::account::{AccountRecord, AccountStore, AccountView};
use crate::outcome::{account_views, EngineError, ExecutionOutcome, OutcomeView};
use crate::pubkey::Pubkey;
use crate::registry::{dispatched, Builtin, ProgramRegistry};
use crate::transaction::{account_keys, InstructionView, Transaction, TransactionView};

verus! {

/// The ledger after the instructions from the `next`-th on have run in
/// order, or the error of the first that fails.
pub open spec fn instructions_applied(
    registry: Map<Pubkey, Builtin>,
    instructions: Seq<InstructionView>,
    next: nat,
    store: Map<Pubkey, AccountView>,
) -> Result<Map<Pubkey, AccountView>, EngineError>
    decreases instructions.len() - next,
{
    if next >= instructions.len() {
        Ok(store)
    } else {
        let ix = instructions[next as int];
        match dispatched(registry, ix.program_id, ix, store) {
            Ok(after) => instructions_applied(registry, instructions, next + 1, after),
            Err(e) => Err(e),
        }
    }
}

/// The ledger after all instructions of `tx` have run, or the error of the
/// first that fails.
pub open spec fn execution(
    tx: TransactionView,
    store: Map<Pubkey, AccountView>,
    registry: Map<Pubkey, Builtin>,
) -> Result<Map<Pubkey, AccountView>, EngineError> {
    instructions_applied(registry, tx.instructions, 0, store)
}

/// The accounts of `store` under the first `n` of `keys`, in that order;
/// a key without an account is passed over.
pub open spec fn records_of(store: Map<Pubkey, AccountView>, keys: Seq<Pubkey>, n: nat) -> Seq<AccountView>
    decreases n,
{
    if n == 0 {
        Seq::empty()
    } else {
        let earlier = records_of(store, keys, (n - 1) as nat);
        if store.contains_key(keys[n - 1]) {
            earlier.push(store[keys[n - 1]])
        } else {
            earlier
        }
    }
}

/// How executing `tx` on `store` ends: `Executed` with the accounts that
/// the transaction could change, or `FeesOnly` with the first error.
pub open spec fn execution_outcome(
    tx: TransactionView,
    store: Map<Pubkey, AccountView>,
    registry: Map<Pubkey, Builtin>,
) -> OutcomeView {
    match execution(tx, store, registry) {
        Ok(after) => OutcomeView::Executed {
            modified_accounts: records_of(after, tx.writable_keys(), tx.writable_keys().len()),
        },
        Err(reason) => OutcomeView::FeesOnly { reason },
    }
}

/// The ledger after executing `tx` on `store`: changed by every
/// instruction, or, where one fails, as it was.
pub open spec fn execution_store(
    tx: TransactionView,
    store: Map<Pubkey, AccountView>,
    registry: Map<Pubkey, Builtin>,
) -> Map<Pubkey, AccountView> {
    match execution(tx, store, registry) {
        Ok(after) => after,
        Err(_) => store,
    }
}

/// The accounts of `store` under `keys`, in that order.
pub fn collect_records(store: &AccountStore, keys: &Vec<Pubkey>) -> (records: Vec<AccountRecord>)
    ensures
        account_views(records@) == records_of(store@, keys@, keys@.len()),
{
    let mut records: Vec<AccountRecord> = Vec::new();
    assert(account_views(records@) =~= Seq::<AccountView>::empty());
    let mut i: usize = 0;
    while i < keys.len()
        invariant
            i <= keys.len(),
            account_views(records@) == records_of(store@, keys@, i as nat),
        decreases keys.len() - i,
    {
        let ghost earlier = account_views(records@);
        match store.get(&keys[i]) {
            Some(record) => {
                records.push(record);
                assert(account_views(records@) =~= earlier.push(store@[keys[i as int]]));
            },
            None => {},
        }
        i += 1;
    }
    records
}

/// Runs the instructions of `tx` in order. They work on a copy of the
/// ledger: where all succeed the copy becomes the ledger, where one fails
/// the ledger stays as it was.
pub fn execute(tx: &Transaction, store: &mut AccountStore, registry: &ProgramRegistry) -> (outcome: ExecutionOutcome)
    ensures
        outcome@ == execution_outcome(tx@, old(store)@, registry@),
        final(store)@ == execution_store(tx@, old(store)@, registry@),
{
    let mut scratch = store.clone();
    let mut i: usize = 0;
    while i < tx.instructions.len()
        invariant
            i <= tx.instructions.len(),
            execution(tx@, store@, registry@) == instructions_applied(
                registry@,
                tx@.instructions,
                i as nat,
                scratch@,
            ),
        decreases tx.instructions.len() - i,
    {
        let ix = &tx.instructions[i];
        assert(tx@.instructions[i as int] == ix@);
        match registry.dispatch(&ix.program_id, ix, &mut scratch) {
            Ok(()) => {},
            Err(reason) => {
                return ExecutionOutcome::FeesOnly { reason };
            },
        }
        i += 1;
    }
    let keys = account_keys(tx.fee_payer, &tx.instructions, false);
    let modified_accounts = collect_records(&scratch, &keys);
    *store = scratch;
    ExecutionOutcome::Executed { modified_accounts }
}

} // verus!
