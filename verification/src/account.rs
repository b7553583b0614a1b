use vstd::prelude::*;
use crate::pubkey::Pubkey;

verus! {

/// One account of the ledger.
#[derive(Debug, PartialEq, Eq)]
pub struct AccountRecord {
    /// The identifier under which the account is filed.
    pub id: Pubkey,
    /// The balance, in the smallest indivisible unit.
    pub lamports: u64,
    /// The program allowed to change the account's data and owner.
    pub owner: Pubkey,
    /// Opaque bytes; empty for an account that only holds a balance.
    pub data: Vec<u8>,
    /// Whether the account holds a program.
    pub executable: bool,
    /// The epoch marker carried along with the account.
    pub rent_epoch: u64,
}

/// What an [`AccountRecord`] holds, as a mathematical value.
pub struct AccountView {
    pub id: Pubkey,
    pub lamports: u64,
    pub owner: Pubkey,
    pub data: Seq<u8>,
    pub executable: bool,
    pub rent_epoch: u64,
}

impl View for AccountRecord {
    type V = AccountView;

    open spec fn view(&self) -> AccountView {
        AccountView {
            id: self.id,
            lamports: self.lamports,
            owner: self.owner,
            data: self.data@,
            executable: self.executable,
            rent_epoch: self.rent_epoch,
        }
    }
}

impl Clone for AccountRecord {
    fn clone(&self) -> (copy: AccountRecord)
        ensures
            copy@ == self@,
    {
        let data = self.data.clone();
        assert(data@ =~= self.data@);
        AccountRecord {
            id: self.id,
            lamports: self.lamports,
            owner: self.owner,
            data,
            executable: self.executable,
            rent_epoch: self.rent_epoch,
        }
    }
}

impl AccountRecord {
    /// An account that only holds a balance: no data, not executable.
    pub fn new(id: Pubkey, lamports: u64, owner: Pubkey) -> (record: AccountRecord)
        ensures
            record@ == AccountView::plain(id, lamports, owner),
    {
        AccountRecord { id, lamports, owner, data: Vec::new(), executable: false, rent_epoch: 0 }
    }

    /// Whether the account holds nothing that would be lost with it: no
    /// balance, no data, no program.
    pub fn is_deletable(&self) -> (deletable: bool)
        ensures
            deletable == self@.is_deletable(),
    {
        self.lamports == 0 && self.data.len() == 0 && !self.executable
    }
}

impl AccountView {
    /// Whether the account holds nothing that would be lost with it: no
    /// balance, no data, no program. Such an account is as good as absent.
    pub open spec fn is_deletable(self) -> bool {
        self.lamports == 0 && self.data.len() == 0 && !self.executable
    }

    /// An account that only holds a balance: no data, not executable.
    pub open spec fn plain(id: Pubkey, lamports: u64, owner: Pubkey) -> AccountView {
        AccountView {
            id,
            lamports,
            owner,
            data: Seq::<u8>::empty(),
            executable: false,
            rent_epoch: 0,
        }
    }

    /// The same account filed under `id`.
    pub open spec fn filed_under(self, id: Pubkey) -> AccountView {
        AccountView { id, ..self }
    }

    /// The same account with the balance `lamports`.
    pub open spec fn with_lamports(self, lamports: u64) -> AccountView {
        AccountView { lamports, ..self }
    }
}

/// The ledger of one execution episode: at most one record for each
/// identifier.
pub struct AccountStore {
    records: Vec<AccountRecord>,
}

impl View for AccountStore {
    type V = Map<Pubkey, AccountView>;

    closed spec fn view(&self) -> Map<Pubkey, AccountView> {
        Map::new(
            |id: Pubkey| self.holds(id),
            |id: Pubkey| self.records[self.slot_of(id)]@,
        )
    }
}

impl AccountStore {
    #[verifier::type_invariant]
    spec fn distinct_ids(&self) -> bool {
        forall|i: int, j: int|
            0 <= i < j < self.records.len() ==> self.records[i].id != self.records[j].id
    }

    spec fn holds(&self, id: Pubkey) -> bool {
        exists|i: int| 0 <= i < self.records.len() && (#[trigger] self.records[i]).id == id
    }

    spec fn slot_of(&self, id: Pubkey) -> int {
        choose|i: int| 0 <= i < self.records.len() && (#[trigger] self.records[i]).id == id
    }

    /// Every account is filed under its own identifier.
    pub proof fn lemma_filed_under_own_id(&self)
        ensures
            forall|id: Pubkey| #[trigger] self@.contains_key(id) ==> self@[id].id == id,
    {
    }

    /// A ledger without accounts.
    pub fn new() -> (store: AccountStore)
        ensures
            store@ == Map::<Pubkey, AccountView>::empty(),
    {
        let store = AccountStore { records: Vec::new() };
        assert(store@ =~= Map::<Pubkey, AccountView>::empty());
        store
    }

    fn find(&self, id: &Pubkey) -> (slot: Option<usize>)
        ensures
            match slot {
                Some(i) => i < self.records.len() && self.records[i as int].id == *id,
                None => !self.holds(*id),
            },
    {
        let mut i: usize = 0;
        while i < self.records.len()
            invariant
                i <= self.records.len(),
                forall|k: int| 0 <= k < i ==> self.records[k].id != *id,
            decreases self.records.len() - i,
        {
            if self.records[i].id == *id {
                return Some(i);
            }
            i += 1;
        }
        None
    }

    /// The account filed under `id`, if there is one.
    pub fn get(&self, id: &Pubkey) -> (found: Option<AccountRecord>)
        ensures
            match found {
                Some(record) => self@.contains_key(*id) && record@ == self@[*id],
                None => !self@.contains_key(*id),
            },
    {
        proof {
            use_type_invariant(self);
        }
        match self.find(id) {
            Some(i) => {
                assert(self.holds(*id));
                assert(self.slot_of(*id) == i);
                Some(self.records[i].clone())
            },
            None => None,
        }
    }

    /// Files `record` under `id`, in place of any account that was filed
    /// there. The stored account carries `id` as its identifier.
    pub fn set(&mut self, id: Pubkey, record: AccountRecord)
        ensures
            final(self)@ == old(self)@.insert(id, record@.filed_under(id)),
    {
        proof {
            use_type_invariant(&*self);
        }
        let filed = AccountRecord {
            id,
            lamports: record.lamports,
            owner: record.owner,
            data: record.data,
            executable: record.executable,
            rent_epoch: record.rent_epoch,
        };
        let ghost before = *self;
        let ghost filed_view = filed@;
        let mut records: Vec<AccountRecord> = Vec::new();
        match self.find(&id) {
            Some(i) => {
                core::mem::swap(&mut self.records, &mut records);
                records.set(i, filed);
                core::mem::swap(&mut self.records, &mut records);
                proof {
                    use_type_invariant(&*self);
                }
                assert(before.holds(id));
                assert forall|k: Pubkey| self.holds(k) == before.holds(k) by {
                    if self.holds(k) {
                        let w = self.slot_of(k);
                        assert(before.records[w].id == k);
                    }
                    if before.holds(k) {
                        let w = before.slot_of(k);
                        assert(self.records[w].id == k);
                    }
                }
                assert forall|k: Pubkey| self.holds(k) implies #[trigger] self@[k]
                    == before@.insert(id, filed_view)[k] by {
                    let w = self.slot_of(k);
                    assert(before.records[w].id == k);
                    assert(before.slot_of(k) == w);
                }
            },
            None => {
                core::mem::swap(&mut self.records, &mut records);
                records.push(filed);
                core::mem::swap(&mut self.records, &mut records);
                proof {
                    use_type_invariant(&*self);
                }
                let ghost last = before.records.len() as int;
                assert(self.records[last].id == id);
                assert forall|k: Pubkey| self.holds(k) == (before.holds(k) || k == id) by {
                    if self.holds(k) {
                        let w = self.slot_of(k);
                        if w < last {
                            assert(before.records[w].id == k);
                        }
                    }
                    if before.holds(k) {
                        let w = before.slot_of(k);
                        assert(self.records[w].id == k);
                    }
                }
                assert forall|k: Pubkey| self.holds(k) implies #[trigger] self@[k]
                    == before@.insert(id, filed_view)[k] by {
                    let w = self.slot_of(k);
                    if w < last {
                        assert(before.records[w].id == k);
                        assert(before.slot_of(k) == w);
                    }
                }
            },
        }
        assert(self@ =~= before@.insert(id, filed_view));
    }

    /// The place of the account's owner in `owners`: the first index at
    /// which `owners` holds it, if the account exists and its owner is
    /// listed. Tells whether an account belongs to one of a set of
    /// programs without handing the account out.
    pub fn contains_owner(&self, id: &Pubkey, owners: &Vec<Pubkey>) -> (place: Option<usize>)
        ensures
            is_owner_place(self@, *id, owners@, place),
    {
        match self.get(id) {
            Some(record) => {
                let mut i: usize = 0;
                while i < owners.len()
                    invariant
                        i <= owners.len(),
                        self@.contains_key(*id),
                        record@ == self@[*id],
                        forall|k: int| 0 <= k < i ==> owners[k] != record.owner,
                    decreases owners.len() - i,
                {
                    if owners[i] == record.owner {
                        return Some(i);
                    }
                    i += 1;
                }
                None
            },
            None => None,
        }
    }
}

impl Clone for AccountStore {
    fn clone(&self) -> (copy: AccountStore)
        ensures
            copy@ == self@,
    {
        proof {
            use_type_invariant(self);
        }
        let mut records: Vec<AccountRecord> = Vec::new();
        let mut i: usize = 0;
        while i < self.records.len()
            invariant
                i <= self.records.len(),
                records.len() == i,
                forall|k: int| 0 <= k < i ==> records[k]@ == self.records[k]@,
            decreases self.records.len() - i,
        {
            records.push(self.records[i].clone());
            i += 1;
        }
        let copy = AccountStore { records };
        assert forall|k: Pubkey| copy.holds(k) == self.holds(k) by {
            if copy.holds(k) {
                let w = copy.slot_of(k);
                assert(self.records[w].id == k);
            }
            if self.holds(k) {
                let w = self.slot_of(k);
                assert(copy.records[w].id == k);
            }
        }
        assert forall|k: Pubkey| copy.holds(k) implies #[trigger] copy@[k] == self@[k] by {
            let w = copy.slot_of(k);
            assert(self.records[w].id == k);
            assert(self.slot_of(k) == w);
        }
        assert(copy@ =~= self@);
        copy
    }
}

/// Whether `place` is the answer to the question where `owners` first
/// lists the owner of the account `id` of `store`: `None` where there is
/// no such account or its owner is not listed.
pub open spec fn is_owner_place(
    store: Map<Pubkey, AccountView>,
    id: Pubkey,
    owners: Seq<Pubkey>,
    place: Option<usize>,
) -> bool {
    match place {
        Some(i) => {
            &&& store.contains_key(id)
            &&& i < owners.len()
            &&& owners[i as int] == store[id].owner
            &&& forall|k: int| 0 <= k < i ==> owners[k] != store[id].owner
        },
        None => !store.contains_key(id) || !owners.contains(store[id].owner),
    }
}

} // verus!
