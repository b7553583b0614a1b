use vstd::prelude::*;
use crate::account::{AccountStore, AccountView};
use crate::outcome::FeeError;
use crate::pubkey::Pubkey;
use crate::validator::fee;

verus! {

/// The ledger after the fee for `signature_count` signatures was taken
/// from `fee_payer`, or `InsufficientFeeBalance` where that account does
/// not exist or holds less than the fee.
pub open spec fn fee_collection(
    store: Map<Pubkey, AccountView>,
    fee_payer: Pubkey,
    lamports_per_signature: u64,
    signature_count: u64,
) -> Result<Map<Pubkey, AccountView>, FeeError> {
    let owed = fee(lamports_per_signature, signature_count);
    if store.contains_key(fee_payer) && store[fee_payer].lamports >= owed {
        Ok(
            store.insert(
                fee_payer,
                store[fee_payer].with_lamports((store[fee_payer].lamports - owed) as u64),
            ),
        )
    } else {
        Err(FeeError::InsufficientFeeBalance)
    }
}

/// Takes the fee for `signature_count` signatures from `fee_payer`. The
/// balance is checked here again, whatever was checked before: either the
/// whole fee is taken or, with an error, `store` is as it was.
pub fn collect(fee_payer: &Pubkey, lamports_per_signature: u64, signature_count: u64, store: &mut AccountStore) -> (result: Result<(), FeeError>)
    ensures
        result == match fee_collection(
            old(store)@,
            *fee_payer,
            lamports_per_signature,
            signature_count,
        ) {
            Ok(_) => Ok(()),
            Err(e) => Err(e),
        },
        final(store)@ == match fee_collection(
            old(store)@,
            *fee_payer,
            lamports_per_signature,
            signature_count,
        ) {
            Ok(after) => after,
            Err(_) => old(store)@,
        },
{
    proof {
        store.lemma_filed_under_own_id();
    }
    let mut payer = match store.get(fee_payer) {
        Some(payer) => payer,
        None => {
            return Err(FeeError::InsufficientFeeBalance);
        },
    };
    let owed = match lamports_per_signature.checked_mul(signature_count) {
        Some(owed) => owed,
        None => {
            return Err(FeeError::InsufficientFeeBalance);
        },
    };
    if payer.lamports < owed {
        return Err(FeeError::InsufficientFeeBalance);
    }
    payer.lamports = payer.lamports - owed;
    store.set(*fee_payer, payer);
    Ok(())
}

} // verus!
