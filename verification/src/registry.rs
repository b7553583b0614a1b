use vstd::prelude::*;
use crate::account::{AccountRecord, AccountStore, AccountView};
use crate::outcome::EngineError;
use crate::pubkey::{system_program_id, Pubkey};
use crate::sdk::{loadable, loadable_account};
use crate::transaction::{decode_transfer, parse_transfer, Instruction, InstructionView};

verus! {

/// The balance that a builtin program's account starts with.
pub const BUILTIN_ACCOUNT_LAMPORTS: u64 = 5000;

/// A handler that the ledger knows how to run.
#[derive(Clone, Copy, Debug, PartialEq, Eq, Structural)]
pub enum Builtin {
    /// Moves lamports from one account to another.
    SystemTransfer,
}

impl Builtin {
    /// The name under which the handler's program is known.
    pub open spec fn spec_name(self) -> &'static str {
        match self {
            Builtin::SystemTransfer => "system_program",
        }
    }

    /// The name under which the handler's program is known.
    #[verifier::when_used_as_spec(spec_name)]
    pub fn name(self) -> (name: &'static str)
        ensures
            name == self.spec_name(),
    {
        match self {
            Builtin::SystemTransfer => "system_program",
        }
    }
}

/// One registration: `handler` runs the instructions of `program_id`.
struct Registration {
    program_id: Pubkey,
    handler: Builtin,
}

/// The programs that instructions can be handed to.
pub struct ProgramRegistry {
    registrations: Vec<Registration>,
}

/// The handlers after the first `n` of `registrations`: a later one
/// replaces an earlier one for the same program.
spec fn handlers(registrations: Seq<Registration>, n: nat) -> Map<Pubkey, Builtin>
    decreases n,
{
    if n == 0 {
        Map::empty()
    } else {
        handlers(registrations, (n - 1) as nat).insert(
            registrations[n - 1].program_id,
            registrations[n - 1].handler,
        )
    }
}

/// Registrations beyond the first `n` do not change what the first `n`
/// say.
proof fn lemma_handlers_of_prefix(earlier: Seq<Registration>, later: Seq<Registration>, n: nat)
    requires
        n <= earlier.len() <= later.len(),
        forall|i: int| 0 <= i < earlier.len() ==> earlier[i] == later[i],
    ensures
        handlers(earlier, n) == handlers(later, n),
    decreases n,
{
    if n > 0 {
        lemma_handlers_of_prefix(earlier, later, (n - 1) as nat);
    }
}

impl View for ProgramRegistry {
    type V = Map<Pubkey, Builtin>;

    closed spec fn view(&self) -> Map<Pubkey, Builtin> {
        handlers(self.registrations@, self.registrations@.len())
    }
}

/// The account `id` of `store`; where there is none, the account that a
/// first credit creates: empty, owned by the system program.
pub open spec fn account_or_empty(store: Map<Pubkey, AccountView>, id: Pubkey) -> AccountView {
    if store.contains_key(id) {
        store[id]
    } else {
        AccountView::plain(id, 0, system_program_id())
    }
}

/// The ledger after a transfer instruction, or why it fails. The payload is
/// read first, then the accounts are checked, then the sender's funds, then
/// the receiver's room. A receiver that does not exist yet starts as an
/// empty account of the system program.
pub open spec fn transfer_applied(
    store: Map<Pubkey, AccountView>,
    ix: InstructionView,
) -> Result<Map<Pubkey, AccountView>, EngineError> {
    match parse_transfer(ix.data) {
        None => Err(EngineError::InvalidInstructionData),
        Some(amount) => {
            if ix.accounts.len() < 2 {
                Err(EngineError::AccountConflict)
            } else {
                let from = ix.accounts[0];
                let to = ix.accounts[1];
                if from.pubkey == to.pubkey || !from.is_signer || !from.is_writable
                    || !to.is_writable {
                    Err(EngineError::AccountConflict)
                } else if !store.contains_key(from.pubkey) || store[from.pubkey].lamports
                    < amount {
                    Err(EngineError::InsufficientFunds)
                } else {
                    let receiver = account_or_empty(store, to.pubkey);
                    if receiver.lamports + amount > u64::MAX {
                        Err(EngineError::ArithmeticOverflow)
                    } else {
                        let sender = store[from.pubkey];
                        Ok(
                            store.insert(
                                from.pubkey,
                                sender.with_lamports((sender.lamports - amount) as u64),
                            ).insert(
                                to.pubkey,
                                receiver.with_lamports((receiver.lamports + amount) as u64),
                            ),
                        )
                    }
                }
            }
        },
    }
}

/// The ledger after `handler` has run `ix`, or why it fails.
pub open spec fn handled(
    handler: Builtin,
    store: Map<Pubkey, AccountView>,
    ix: InstructionView,
) -> Result<Map<Pubkey, AccountView>, EngineError> {
    match handler {
        Builtin::SystemTransfer => transfer_applied(store, ix),
    }
}

/// The ledger after `ix` was handed to the program `program_id`, or why
/// that fails: `UnknownProgram` where nothing is registered for it.
pub open spec fn dispatched(
    registry: Map<Pubkey, Builtin>,
    program_id: Pubkey,
    ix: InstructionView,
    store: Map<Pubkey, AccountView>,
) -> Result<Map<Pubkey, AccountView>, EngineError> {
    if registry.contains_key(program_id) {
        handled(registry[program_id], store, ix)
    } else {
        Err(EngineError::UnknownProgram)
    }
}

/// Moves lamports as `ix` asks. Either both balances change or, with an
/// error, nothing does.
pub fn apply_transfer(store: &mut AccountStore, ix: &Instruction) -> (result: Result<(), EngineError>)
    ensures
        result == match transfer_applied(old(store)@, ix@) {
            Ok(_) => Ok(()),
            Err(e) => Err(e),
        },
        final(store)@ == match transfer_applied(old(store)@, ix@) {
            Ok(after) => after,
            Err(_) => old(store)@,
        },
{
    proof {
        store.lemma_filed_under_own_id();
    }
    let amount = match decode_transfer(&ix.data) {
        Some(amount) => amount,
        None => {
            return Err(EngineError::InvalidInstructionData);
        },
    };
    if ix.accounts.len() < 2 {
        return Err(EngineError::AccountConflict);
    }
    let from = ix.accounts[0];
    let to = ix.accounts[1];
    if from.pubkey == to.pubkey || !from.is_signer || !from.is_writable || !to.is_writable {
        return Err(EngineError::AccountConflict);
    }
    let mut sender = match store.get(&from.pubkey) {
        Some(sender) => sender,
        None => {
            return Err(EngineError::InsufficientFunds);
        },
    };
    if sender.lamports < amount {
        return Err(EngineError::InsufficientFunds);
    }
    let mut receiver = match store.get(&to.pubkey) {
        Some(receiver) => receiver,
        None => AccountRecord::new(to.pubkey, 0, system_program_id()),
    };
    let credited = match receiver.lamports.checked_add(amount) {
        Some(credited) => credited,
        None => {
            return Err(EngineError::ArithmeticOverflow);
        },
    };
    sender.lamports = sender.lamports - amount;
    receiver.lamports = credited;
    store.set(from.pubkey, sender);
    store.set(to.pubkey, receiver);
    Ok(())
}

impl ProgramRegistry {
    /// A registry without programs.
    pub fn new() -> (registry: ProgramRegistry)
        ensures
            registry@ == Map::<Pubkey, Builtin>::empty(),
    {
        ProgramRegistry { registrations: Vec::new() }
    }

    /// Registers `handler` for `program_id`, in place of any earlier
    /// handler, and files the program's account in `store`: owned by the
    /// native loader, executable, named after the handler, with the
    /// starting balance of a builtin.
    pub fn register_builtin(&mut self, store: &mut AccountStore, program_id: Pubkey, handler: Builtin)
        ensures
            final(self)@ == old(self)@.insert(program_id, handler),
            final(store)@ == old(store)@.insert(
                program_id,
                loadable(program_id, handler.name(), BUILTIN_ACCOUNT_LAMPORTS, 0),
            ),
    {
        let account = loadable_account(program_id, handler.name(), BUILTIN_ACCOUNT_LAMPORTS, 0);
        store.set(program_id, account);
        self.registrations.push(Registration { program_id, handler });
        proof {
            lemma_handlers_of_prefix(
                old(self).registrations@,
                self.registrations@,
                old(self).registrations@.len(),
            );
        }
    }

    /// The handler registered for `program_id`, if there is one.
    pub fn handler_of(&self, program_id: &Pubkey) -> (handler: Option<Builtin>)
        ensures
            handler == if self@.contains_key(*program_id) {
                Some(self@[*program_id])
            } else {
                None
            },
    {
        let mut handler: Option<Builtin> = None;
        let mut i: usize = 0;
        while i < self.registrations.len()
            invariant
                i <= self.registrations.len(),
                handler == if handlers(self.registrations@, i as nat).contains_key(*program_id) {
                    Some(handlers(self.registrations@, i as nat)[*program_id])
                } else {
                    None
                },
            decreases self.registrations.len() - i,
        {
            if self.registrations[i].program_id == *program_id {
                handler = Some(self.registrations[i].handler);
            }
            i += 1;
        }
        handler
    }

    /// Hands `instruction` to the handler registered for `program_id`.
    /// Either the handler's changes are in `store` or, with an error,
    /// `store` is as it was.
    pub fn dispatch(&self, program_id: &Pubkey, instruction: &Instruction, store: &mut AccountStore) -> (result: Result<(), EngineError>)
        ensures
            result == match dispatched(self@, *program_id, instruction@, old(store)@) {
                Ok(_) => Ok(()),
                Err(e) => Err(e),
            },
            final(store)@ == match dispatched(self@, *program_id, instruction@, old(store)@) {
                Ok(after) => after,
                Err(_) => old(store)@,
            },
    {
        match self.handler_of(program_id) {
            Some(Builtin::SystemTransfer) => apply_transfer(store, instruction),
            None => Err(EngineError::UnknownProgram),
        }
    }
}

} // verus!
