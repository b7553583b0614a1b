use vstd::prelude::*;
use vstd::bytes::{spec_u64_from_le_bytes, spec_u64_to_le_bytes, u64_from_le_bytes};
use vstd::bytes::lemma_auto_spec_u64_to_from_le_bytes;
use vstd::slice::slice_subrange;
use crate::pubkey::Pubkey;

verus! {

/// One account that an instruction refers to, with what the instruction
/// may do with it.
#[derive(Clone, Copy, Debug, PartialEq, Eq)]
pub struct AccountMeta {
    pub pubkey: Pubkey,
    /// Whether the account's holder must have signed the transaction.
    pub is_signer: bool,
    /// Whether the instruction may change the account.
    pub is_writable: bool,
}

/// One unit of work of a transaction, handed to a program.
#[derive(Debug, PartialEq, Eq)]
pub struct Instruction {
    /// The program that handles the instruction.
    pub program_id: Pubkey,
    /// The accounts the instruction refers to, in the order the program
    /// expects them.
    pub accounts: Vec<AccountMeta>,
    /// What the program is asked to do, encoded as the program defines.
    pub data: Vec<u8>,
}

/// What an [`Instruction`] holds, as a mathematical value.
pub struct InstructionView {
    pub program_id: Pubkey,
    pub accounts: Seq<AccountMeta>,
    pub data: Seq<u8>,
}

impl View for Instruction {
    type V = InstructionView;

    open spec fn view(&self) -> InstructionView {
        InstructionView { program_id: self.program_id, accounts: self.accounts@, data: self.data@ }
    }
}

/// A signature slot of a transaction. Whether `bytes` is a valid signature
/// of `signer` is for the caller's signature check to say; the ledger only
/// asks that every signer has a slot.
#[derive(Clone, Copy, Debug, PartialEq, Eq)]
pub struct Signature {
    pub signer: Pubkey,
    pub bytes: [u8; 64],
}

/// A request to change the ledger: instructions, the account that pays the
/// fee, and the signatures.
#[derive(Debug, PartialEq, Eq)]
pub struct Transaction {
    /// The account charged for the signatures; it must have signed.
    pub fee_payer: Pubkey,
    pub instructions: Vec<Instruction>,
    /// A token that tells this transaction from an earlier, otherwise equal
    /// one. The ledger carries it along and never reads it.
    pub recent_blockhash: [u8; 32],
    pub signatures: Vec<Signature>,
}

/// What a [`Transaction`] holds, as a mathematical value.
pub struct TransactionView {
    pub fee_payer: Pubkey,
    pub instructions: Seq<InstructionView>,
    pub recent_blockhash: [u8; 32],
    pub signatures: Seq<Signature>,
}

/// The views of `instructions`, in order.
pub open spec fn instruction_views(instructions: Seq<Instruction>) -> Seq<InstructionView> {
    instructions.map_values(|ix: Instruction| ix@)
}

impl View for Transaction {
    type V = TransactionView;

    open spec fn view(&self) -> TransactionView {
        TransactionView {
            fee_payer: self.fee_payer,
            instructions: instruction_views(self.instructions@),
            recent_blockhash: self.recent_blockhash,
            signatures: self.signatures@,
        }
    }
}

/// `keys`, with `key` added at the end unless it is there already.
pub open spec fn push_unique(keys: Seq<Pubkey>, key: Pubkey) -> Seq<Pubkey> {
    if keys.contains(key) {
        keys
    } else {
        keys.push(key)
    }
}

/// Whether `meta` is picked: as a signer where `signers` holds, else as a
/// writable account.
pub open spec fn picked(meta: AccountMeta, signers: bool) -> bool {
    if signers {
        meta.is_signer
    } else {
        meta.is_writable
    }
}

/// `keys`, followed by the picked accounts among the first `n` of `metas`
/// that were not there yet, in the order of their first mention.
pub open spec fn keys_of_metas(
    keys: Seq<Pubkey>,
    metas: Seq<AccountMeta>,
    n: nat,
    signers: bool,
) -> Seq<Pubkey>
    decreases n,
{
    if n == 0 {
        keys
    } else {
        let earlier = keys_of_metas(keys, metas, (n - 1) as nat, signers);
        if picked(metas[n - 1], signers) {
            push_unique(earlier, metas[n - 1].pubkey)
        } else {
            earlier
        }
    }
}

/// The fee payer, followed by the picked accounts of the first `n`
/// instructions, each once, in the order of their first mention.
pub open spec fn keys_of_instructions(
    fee_payer: Pubkey,
    instructions: Seq<InstructionView>,
    n: nat,
    signers: bool,
) -> Seq<Pubkey>
    decreases n,
{
    if n == 0 {
        seq![fee_payer]
    } else {
        keys_of_metas(
            keys_of_instructions(fee_payer, instructions, (n - 1) as nat, signers),
            instructions[n - 1].accounts,
            instructions[n - 1].accounts.len(),
            signers,
        )
    }
}

/// Sixty-four zero bytes: what a signature slot holds before anyone signs.
pub open spec fn unsigned_bytes() -> [u8; 64] {
    vstd::array::spec_array_fill_for_copy_type::<u8, 64>(0u8)
}

/// Thirty-two zero bytes: the token of a transaction that was given none.
pub open spec fn zero_blockhash() -> [u8; 32] {
    vstd::array::spec_array_fill_for_copy_type::<u8, 32>(0u8)
}

/// One empty signature slot for each of `signers`, in order.
pub open spec fn unsigned_slots(signers: Seq<Pubkey>) -> Seq<Signature> {
    signers.map_values(|signer: Pubkey| Signature { signer, bytes: unsigned_bytes() })
}

impl TransactionView {
    /// The accounts that must have signed: the fee payer first, then every
    /// account that an instruction names as a signer.
    pub open spec fn signer_keys(self) -> Seq<Pubkey> {
        keys_of_instructions(self.fee_payer, self.instructions, self.instructions.len(), true)
    }

    /// The accounts that the transaction may change: the fee payer first,
    /// then every account that an instruction names as writable.
    pub open spec fn writable_keys(self) -> Seq<Pubkey> {
        keys_of_instructions(self.fee_payer, self.instructions, self.instructions.len(), false)
    }

    /// Whether `signer` has a signature slot.
    pub open spec fn has_signature(self, signer: Pubkey) -> bool {
        has_slot(self.signatures, signer)
    }
}

/// Whether one of `signatures` is a slot of `signer`.
pub open spec fn has_slot(signatures: Seq<Signature>, signer: Pubkey) -> bool {
    exists|i: int| 0 <= i < signatures.len() && (#[trigger] signatures[i]).signer == signer
}

/// Whether one of `signatures` is a slot of `signer`.
pub fn signed_by(signatures: &Vec<Signature>, signer: &Pubkey) -> (signed: bool)
    ensures
        signed == has_slot(signatures@, *signer),
{
    let mut i: usize = 0;
    while i < signatures.len()
        invariant
            i <= signatures.len(),
            forall|k: int| 0 <= k < i ==> signatures[k].signer != *signer,
        decreases signatures.len() - i,
    {
        if signatures[i].signer == *signer {
            return true;
        }
        i += 1;
    }
    false
}

/// Whether `keys` holds `key`.
pub fn holds_key(keys: &Vec<Pubkey>, key: &Pubkey) -> (held: bool)
    ensures
        held == keys@.contains(*key),
{
    let mut i: usize = 0;
    while i < keys.len()
        invariant
            i <= keys.len(),
            forall|k: int| 0 <= k < i ==> keys[k] != *key,
        decreases keys.len() - i,
    {
        if keys[i] == *key {
            return true;
        }
        i += 1;
    }
    false
}

/// The fee payer, followed by the accounts that `instructions` name as
/// signers (where `signers` holds) or as writable (where it does not), each
/// once, in the order of their first mention.
pub fn account_keys(fee_payer: Pubkey, instructions: &Vec<Instruction>, signers: bool) -> (keys: Vec<Pubkey>)
    ensures
        keys@ == keys_of_instructions(
            fee_payer,
            instruction_views(instructions@),
            instructions@.len(),
            signers,
        ),
{
    let ghost views = instruction_views(instructions@);
    let mut keys: Vec<Pubkey> = Vec::new();
    keys.push(fee_payer);
    assert(keys@ =~= seq![fee_payer]);
    let mut i: usize = 0;
    while i < instructions.len()
        invariant
            i <= instructions.len(),
            views == instruction_views(instructions@),
            keys@ == keys_of_instructions(fee_payer, views, i as nat, signers),
        decreases instructions.len() - i,
    {
        let metas = &instructions[i].accounts;
        let ghost start = keys@;
        let mut j: usize = 0;
        while j < metas.len()
            invariant
                j <= metas.len(),
                keys@ == keys_of_metas(start, metas@, j as nat, signers),
            decreases metas.len() - j,
        {
            let meta = metas[j];
            let take = if signers { meta.is_signer } else { meta.is_writable };
            if take && !holds_key(&keys, &meta.pubkey) {
                keys.push(meta.pubkey);
            }
            j += 1;
        }
        assert(views[i as int].accounts == metas@);
        i += 1;
    }
    keys
}

impl Transaction {
    /// A transaction of `instructions` for which `fee_payer` pays, with an
    /// empty signature slot for every account that has to sign and an
    /// all-zero token.
    pub fn new_with_payer(instructions: Vec<Instruction>, fee_payer: Pubkey) -> (tx: Transaction)
        ensures
            tx@.fee_payer == fee_payer,
            tx@.instructions == instruction_views(instructions@),
            tx@.recent_blockhash == zero_blockhash(),
            tx@.signatures == unsigned_slots(tx@.signer_keys()),
    {
        let signers = account_keys(fee_payer, &instructions, true);
        let mut signatures: Vec<Signature> = Vec::new();
        let mut i: usize = 0;
        while i < signers.len()
            invariant
                i <= signers.len(),
                signatures@ == unsigned_slots(signers@.take(i as int)),
            decreases signers.len() - i,
        {
            signatures.push(Signature { signer: signers[i], bytes: [0u8; 64] });
            assert(signatures@ =~= unsigned_slots(signers@.take(i + 1)));
            i += 1;
        }
        assert(signers@.take(signers@.len() as int) =~= signers@);
        Transaction { fee_payer, instructions, recent_blockhash: [0u8; 32], signatures }
    }
}

/// The payload that asks the system program to move `lamports`: the
/// operation's number, 2, as four little-endian bytes, then the amount as
/// eight.
pub open spec fn transfer_payload(lamports: u64) -> Seq<u8> {
    seq![2u8, 0u8, 0u8, 0u8] + spec_u64_to_le_bytes(lamports)
}

/// The amount that `data` asks to move, where `data` is a transfer's
/// payload: twelve bytes, the first four of them the operation's number.
pub open spec fn parse_transfer(data: Seq<u8>) -> Option<u64> {
    if data.len() == 12 && data[0] == 2 && data[1] == 0 && data[2] == 0 && data[3] == 0 {
        Some(spec_u64_from_le_bytes(data.subrange(4, 12)))
    } else {
        None
    }
}

/// Reads a transfer's payload.
pub fn decode_transfer(data: &Vec<u8>) -> (amount: Option<u64>)
    ensures
        amount == parse_transfer(data@),
{
    if data.len() == 12 && data[0] == 2 && data[1] == 0 && data[2] == 0 && data[3] == 0 {
        Some(u64_from_le_bytes(slice_subrange(data.as_slice(), 4, 12)))
    } else {
        None
    }
}

/// Every amount is read back from its own payload.
pub proof fn lemma_transfer_payload_parses(lamports: u64)
    ensures
        parse_transfer(transfer_payload(lamports)) == Some(lamports),
{
    lemma_auto_spec_u64_to_from_le_bytes();
    let payload = transfer_payload(lamports);
    assert(payload.subrange(4, 12) =~= spec_u64_to_le_bytes(lamports));
}

} // verus!
