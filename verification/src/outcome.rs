use vstd::prelude::*;
use crate::account::{AccountRecord, AccountView};

verus! {

/// Why a transaction was turned away before anything was charged.
#[derive(Clone, Copy, Debug, PartialEq, Eq, Structural)]
pub enum ValidationError {
    /// An account that has to sign has no signature slot.
    MissingSignature,
    /// The fee payer is not an account of the system program, or an
    /// instruction refers to an account that neither exists nor can be
    /// created.
    UnknownAccount,
    /// The fee payer holds less than the fee.
    InsufficientFeeBalance,
}

/// Why the fee could not be charged.
#[derive(Clone, Copy, Debug, PartialEq, Eq, Structural)]
pub enum FeeError {
    /// The fee payer holds less than the fee, or does not exist.
    InsufficientFeeBalance,
}

/// Why an instruction failed.
#[derive(Clone, Copy, Debug, PartialEq, Eq, Structural)]
pub enum EngineError {
    /// No handler is registered for the instruction's program.
    UnknownProgram,
    /// The sender holds less than the amount to move.
    InsufficientFunds,
    /// The instruction's accounts do not allow what it asks: a transfer
    /// needs a writable, signing sender and a different, writable receiver.
    AccountConflict,
    /// The payload is not one the program understands.
    InvalidInstructionData,
    /// The receiver's balance would exceed the largest amount an account
    /// can hold.
    ArithmeticOverflow,
}

/// Why a transaction was rejected.
#[derive(Clone, Copy, Debug, PartialEq, Eq, Structural)]
pub enum RejectReason {
    Validation(ValidationError),
    Fee(FeeError),
}

/// Why a transaction did not go through.
#[derive(Clone, Copy, Debug, PartialEq, Eq, Structural)]
pub enum TransactionError {
    /// Rejected by validation: nothing was charged or changed.
    Validation(ValidationError),
    /// Rejected when the fee was to be charged: nothing was charged or
    /// changed.
    Fee(FeeError),
    /// The fee was charged and an instruction failed.
    Engine(EngineError),
}

/// The rate that a transaction was validated against.
#[derive(Clone, Copy, Debug, PartialEq, Eq, Structural)]
pub struct CheckedTransaction {
    pub lamports_per_signature: u64,
}

/// How the run of one transaction ended.
#[derive(Debug, PartialEq, Eq)]
#[allow(inconsistent_fields)]
pub enum ExecutionOutcome {
    /// Every instruction was applied. `modified_accounts` holds the accounts
    /// the transaction could change as they are afterwards, the fee payer
    /// first.
    Executed { modified_accounts: Vec<AccountRecord> },
    /// The fee was charged, an instruction failed, and no instruction left a
    /// trace.
    FeesOnly { reason: EngineError },
    /// The transaction never ran: nothing was charged or changed.
    Rejected { reason: RejectReason },
}

/// What an [`ExecutionOutcome`] holds, as a mathematical value.
#[allow(inconsistent_fields)]
pub enum OutcomeView {
    Executed { modified_accounts: Seq<AccountView> },
    FeesOnly { reason: EngineError },
    Rejected { reason: RejectReason },
}

/// The views of `records`, in order.
pub open spec fn account_views(records: Seq<AccountRecord>) -> Seq<AccountView> {
    records.map_values(|record: AccountRecord| record@)
}

impl View for ExecutionOutcome {
    type V = OutcomeView;

    open spec fn view(&self) -> OutcomeView {
        match *self {
            ExecutionOutcome::Executed { modified_accounts } => OutcomeView::Executed {
                modified_accounts: account_views(modified_accounts@),
            },
            ExecutionOutcome::FeesOnly { reason } => OutcomeView::FeesOnly { reason },
            ExecutionOutcome::Rejected { reason } => OutcomeView::Rejected { reason },
        }
    }
}

} // verus!
