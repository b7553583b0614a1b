use vstd::prelude::*;
use crate::account::{AccountStore, AccountView};
use crate::outcome::{CheckedTransaction, ValidationError};
use crate::pubkey::{system_program_id, Pubkey};
use crate::transaction::{has_slot, signed_by, AccountMeta, Transaction, TransactionView};

verus! {

/// Whether the fee payer and every account that an instruction names as a
/// signer has a signature slot.
pub open spec fn signers_have_slots(tx: TransactionView) -> bool {
    &&& tx.has_signature(tx.fee_payer)
    &&& forall|i: int, j: int|
        0 <= i < tx.instructions.len() && 0 <= j < tx.instructions[i].accounts.len() && (
        #[trigger] tx.instructions[i].accounts[j]).is_signer ==> tx.has_signature(
            tx.instructions[i].accounts[j].pubkey,
        )
}

/// Whether `id` is an account that fees can be taken from: it exists and
/// belongs to the system program.
pub open spec fn pays_fees(store: Map<Pubkey, AccountView>, id: Pubkey) -> bool {
    store.contains_key(id) && store[id].owner == system_program_id()
}

/// The fee for `signature_count` signatures at `lamports_per_signature`.
pub open spec fn fee(lamports_per_signature: u64, signature_count: u64) -> int {
    lamports_per_signature as int * signature_count as int
}

/// Whether the account that `meta` refers to exists or can be created: an
/// account named as writable and not as a signer comes into being when it
/// is first credited.
pub open spec fn resolvable(store: Map<Pubkey, AccountView>, meta: AccountMeta) -> bool {
    store.contains_key(meta.pubkey) || (meta.is_writable && !meta.is_signer)
}

/// Whether every account that an instruction refers to exists or can be
/// created.
pub open spec fn accounts_resolvable(tx: TransactionView, store: Map<Pubkey, AccountView>) -> bool {
    forall|i: int, j: int|
        0 <= i < tx.instructions.len() && 0 <= j < tx.instructions[i].accounts.len()
            ==> resolvable(store, #[trigger] tx.instructions[i].accounts[j])
}

/// What validation says of `tx` against `store` at the rate
/// `lamports_per_signature`. The checks come in this order: signatures, the
/// fee payer's account, the fee payer's balance, the instructions'
/// accounts; the first that fails gives the error.
pub open spec fn validation(
    tx: TransactionView,
    store: Map<Pubkey, AccountView>,
    lamports_per_signature: u64,
) -> Result<CheckedTransaction, ValidationError> {
    if !signers_have_slots(tx) {
        Err(ValidationError::MissingSignature)
    } else if !pays_fees(store, tx.fee_payer) {
        Err(ValidationError::UnknownAccount)
    } else if store[tx.fee_payer].lamports < fee(lamports_per_signature, tx.signatures.len() as u64) {
        Err(ValidationError::InsufficientFeeBalance)
    } else if !accounts_resolvable(tx, store) {
        Err(ValidationError::UnknownAccount)
    } else {
        Ok(CheckedTransaction { lamports_per_signature })
    }
}

/// Whether the fee payer and every signer of `tx` has a signature slot.
pub fn every_signer_signed(tx: &Transaction) -> (signed: bool)
    ensures
        signed == signers_have_slots(tx@),
{
    if !signed_by(&tx.signatures, &tx.fee_payer) {
        return false;
    }
    let mut i: usize = 0;
    while i < tx.instructions.len()
        invariant
            i <= tx.instructions.len(),
            tx@.has_signature(tx.fee_payer),
            forall|a: int, b: int|
                0 <= a < i && 0 <= b < tx@.instructions[a].accounts.len() && (
                #[trigger] tx@.instructions[a].accounts[b]).is_signer ==> tx@.has_signature(
                    tx@.instructions[a].accounts[b].pubkey,
                ),
        decreases tx.instructions.len() - i,
    {
        let metas = &tx.instructions[i].accounts;
        assert(tx@.instructions[i as int].accounts == metas@);
        let mut j: usize = 0;
        while j < metas.len()
            invariant
                j <= metas.len(),
                i < tx.instructions.len(),
                tx@.instructions[i as int].accounts == metas@,
                forall|b: int|
                    0 <= b < j && (#[trigger] metas[b]).is_signer ==> has_slot(
                        tx.signatures@,
                        metas[b].pubkey,
                    ),
            decreases metas.len() - j,
        {
            if metas[j].is_signer && !signed_by(&tx.signatures, &metas[j].pubkey) {
                assert(tx@.instructions[i as int].accounts[j as int].is_signer);
                return false;
            }
            j += 1;
        }
        i += 1;
    }
    true
}

/// Whether every account that an instruction of `tx` refers to exists in
/// `store` or can be created.
pub fn every_account_resolvable(tx: &Transaction, store: &AccountStore) -> (resolved: bool)
    ensures
        resolved == accounts_resolvable(tx@, store@),
{
    let mut i: usize = 0;
    while i < tx.instructions.len()
        invariant
            i <= tx.instructions.len(),
            forall|a: int, b: int|
                0 <= a < i && 0 <= b < tx@.instructions[a].accounts.len() ==> resolvable(
                    store@,
                    #[trigger] tx@.instructions[a].accounts[b],
                ),
        decreases tx.instructions.len() - i,
    {
        let metas = &tx.instructions[i].accounts;
        assert(tx@.instructions[i as int].accounts == metas@);
        let mut j: usize = 0;
        while j < metas.len()
            invariant
                j <= metas.len(),
                i < tx.instructions.len(),
                tx@.instructions[i as int].accounts == metas@,
                forall|b: int| 0 <= b < j ==> resolvable(store@, #[trigger] metas[b]),
            decreases metas.len() - j,
        {
            let meta = metas[j];
            if !(meta.is_writable && !meta.is_signer) && store.get(&meta.pubkey).is_none() {
                assert(!resolvable(store@, tx@.instructions[i as int].accounts[j as int]));
                return false;
            }
            j += 1;
        }
        i += 1;
    }
    true
}

/// Checks `tx` against `store` before anything is charged or run, and
/// hands back the rate it was checked at.
pub fn validate(tx: &Transaction, store: &AccountStore, lamports_per_signature: u64) -> (checked: Result<CheckedTransaction, ValidationError>)
    ensures
        checked == validation(tx@, store@, lamports_per_signature),
{
    if !every_signer_signed(tx) {
        return Err(ValidationError::MissingSignature);
    }
    let fee_owners = vec![system_program_id()];
    if store.contains_owner(&tx.fee_payer, &fee_owners).is_none() {
        assert(!pays_fees(store@, tx.fee_payer)) by {
            if pays_fees(store@, tx.fee_payer) {
                assert(fee_owners@[0] == system_program_id());
            }
        }
        return Err(ValidationError::UnknownAccount);
    }
    let balance = match store.get(&tx.fee_payer) {
        Some(payer) => payer.lamports,
        None => {
            return Err(ValidationError::UnknownAccount);
        },
    };
    let covered = match lamports_per_signature.checked_mul(tx.signatures.len() as u64) {
        Some(fee) => balance >= fee,
        None => false,
    };
    if !covered {
        return Err(ValidationError::InsufficientFeeBalance);
    }
    if !every_account_resolvable(tx, store) {
        return Err(ValidationError::UnknownAccount);
    }
    Ok(CheckedTransaction { lamports_per_signature })
}

} // verus!
