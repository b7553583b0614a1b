use svm_sp1_test_lib::account::{AccountRecord, AccountStore};
use svm_sp1_test_lib::pubkey::{native_loader_id, system_program_id, Pubkey};

fn id(byte: u8) -> Pubkey {
    Pubkey { bytes: [byte; 32] }
}

#[test]
fn empty_store_holds_nothing() {
    let store = AccountStore::new();
    assert_eq!(store.get(&id(1)), None);
    assert_eq!(store.get(&system_program_id()), None);
    assert_eq!(store.contains_owner(&id(1), &vec![system_program_id()]), None);
}

#[test]
fn set_creates_and_overwrites() {
    let mut store = AccountStore::new();
    store.set(id(1), AccountRecord::new(id(1), 10, system_program_id()));
    store.set(id(2), AccountRecord::new(id(2), 20, system_program_id()));
    assert_eq!(store.get(&id(1)).unwrap().lamports, 10);
    assert_eq!(store.get(&id(2)).unwrap().lamports, 20);
    store.set(id(1), AccountRecord::new(id(1), 11, native_loader_id()));
    assert_eq!(store.get(&id(1)), Some(AccountRecord::new(id(1), 11, native_loader_id())));
    assert_eq!(store.get(&id(2)), Some(AccountRecord::new(id(2), 20, system_program_id())));
    assert_eq!(store.get(&id(3)), None);
}

#[test]
fn set_files_under_the_given_id() {
    let mut store = AccountStore::new();
    let mut record = AccountRecord::new(id(9), 5, system_program_id());
    record.data = vec![1, 2, 3];
    record.rent_epoch = 4;
    store.set(id(1), record);
    assert_eq!(store.get(&id(9)), None);
    let filed = store.get(&id(1)).unwrap();
    assert_eq!(filed.id, id(1));
    assert_eq!(filed.lamports, 5);
    assert_eq!(filed.data, vec![1, 2, 3]);
    assert_eq!(filed.rent_epoch, 4);
    assert!(!filed.executable);
}

#[test]
fn contains_owner_gives_the_first_place() {
    let mut store = AccountStore::new();
    store.set(id(1), AccountRecord::new(id(1), 10, id(7)));
    let owners = vec![id(5), id(7), id(6), id(7)];
    assert_eq!(store.contains_owner(&id(1), &owners), Some(1));
    assert_eq!(store.contains_owner(&id(1), &vec![id(5), id(6)]), None);
    assert_eq!(store.contains_owner(&id(1), &vec![]), None);
    assert_eq!(store.contains_owner(&id(2), &owners), None);
}

#[test]
fn a_copy_of_the_store_is_its_own() {
    let mut store = AccountStore::new();
    store.set(id(1), AccountRecord::new(id(1), 10, system_program_id()));
    let mut copy = store.clone();
    copy.set(id(1), AccountRecord::new(id(1), 99, system_program_id()));
    copy.set(id(2), AccountRecord::new(id(2), 1, system_program_id()));
    assert_eq!(store.get(&id(1)).unwrap().lamports, 10);
    assert_eq!(store.get(&id(2)), None);
    assert_eq!(copy.get(&id(1)).unwrap().lamports, 99);
}

#[test]
fn deletable_accounts_hold_nothing() {
    let empty = AccountRecord::new(id(1), 0, system_program_id());
    assert!(empty.is_deletable());
    assert!(!AccountRecord::new(id(1), 1, system_program_id()).is_deletable());
    let mut with_data = empty.clone();
    with_data.data = vec![0];
    assert!(!with_data.is_deletable());
    let mut program = empty.clone();
    program.executable = true;
    assert!(!program.is_deletable());
}

#[test]
fn keys_compare_by_their_bytes() {
    let mut other = id(3);
    assert_eq!(other, id(3));
    other.bytes[31] = 4;
    assert_ne!(other, id(3));
    assert_eq!(system_program_id(), id(0));
    assert_ne!(system_program_id(), native_loader_id());
}
