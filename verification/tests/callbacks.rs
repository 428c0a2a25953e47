use interop::callbacks::{ManagedCallbacks, Operation, TABLE_ENTRIES};

const ALL: [Operation; 7] = [
    Operation::SetPaths,
    Operation::LoadModDB,
    Operation::GetModCount,
    Operation::GetModData,
    Operation::FillModData,
    Operation::TakeSnapshot,
    Operation::GetLoadingState,
];

fn table() -> ManagedCallbacks {
    ManagedCallbacks {
        SetPaths: 10,
        LoadModDB: 11,
        GetModCount: 12,
        GetModData: 13,
        FillModData: 14,
        TakeSnapshot: 15,
        GetLoadingState: 16,
    }
}

#[test]
fn entry_is_the_field_of_the_operation() {
    let t = table();
    assert_eq!(t.entry(Operation::SetPaths), 10);
    assert_eq!(t.entry(Operation::LoadModDB), 11);
    assert_eq!(t.entry(Operation::GetModCount), 12);
    assert_eq!(t.entry(Operation::GetModData), 13);
    assert_eq!(t.entry(Operation::FillModData), 14);
    assert_eq!(t.entry(Operation::TakeSnapshot), 15);
    assert_eq!(t.entry(Operation::GetLoadingState), 16);
}

#[test]
fn entries_are_read_in_table_order() {
    let t = ManagedCallbacks::from_entries(&[10, 11, 12, 13, 14, 15, 16]).unwrap();
    assert_eq!(t, table());
    let swapped = ManagedCallbacks::from_entries(&[11, 10, 12, 13, 14, 15, 16]).unwrap();
    assert_eq!(swapped.SetPaths, 11);
    assert_eq!(swapped.LoadModDB, 10);
}

#[test]
fn from_entries_wants_seven() {
    assert_eq!(ManagedCallbacks::from_entries(&[]), None);
    assert_eq!(ManagedCallbacks::from_entries(&[1, 2, 3, 4, 5, 6]), None);
    assert_eq!(ManagedCallbacks::from_entries(&[1, 2, 3, 4, 5, 6, 7, 8]), None);
}

#[test]
fn entry_follows_the_table_order() {
    let entries = [10, 11, 12, 13, 14, 15, 16];
    let t = ManagedCallbacks::from_entries(&entries).unwrap();
    for (slot, op) in ALL.iter().enumerate() {
        assert_eq!(t.entry(*op), entries[slot]);
    }
}

#[test]
fn complete_table_has_no_null_entry() {
    assert_eq!(TABLE_ENTRIES, 7);
    assert!(table().is_complete());
    for slot in 0..7 {
        let mut entries = [10, 11, 12, 13, 14, 15, 16];
        entries[slot] = 0;
        let t = ManagedCallbacks::from_entries(&entries).unwrap();
        assert!(!t.is_complete(), "slot {}", slot);
    }
}
