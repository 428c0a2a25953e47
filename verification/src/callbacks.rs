//! The function table: the entry points that the managed side supplies, once, for
//! the native side to call through.
//!
//! The table is a fixed, ordered block of seven entry points. The native side never
//! looks inside an entry: it keeps each one as the address it was given and hands
//! that address to whoever performs the call.
use vstd::prelude::*;

verus! {

/// Number of entry points in a function table.
pub const TABLE_ENTRIES: usize = 7;

/// The operations of the managed side, in the order of their table slots.
#[derive(Clone, Copy, Debug, PartialEq, Eq)]
pub enum Operation {
    SetPaths,
    LoadModDB,
    GetModCount,
    GetModData,
    FillModData,
    TakeSnapshot,
    GetLoadingState,
}

impl Operation {
    /// The slot of the operation in the table.
    pub open spec fn spec_slot(self) -> int {
        match self {
            Operation::SetPaths => 0,
            Operation::LoadModDB => 1,
            Operation::GetModCount => 2,
            Operation::GetModData => 3,
            Operation::FillModData => 4,
            Operation::TakeSnapshot => 5,
            Operation::GetLoadingState => 6,
        }
    }
}

/// Entry points supplied by the managed side, each held as its address.
///
/// The table is copied by value; the managed side owns the callees for the life of
/// the process. A null entry is not rejected anywhere: calling through one is the
/// caller's fault, and `is_complete` lets a caller find out beforehand.
#[allow(non_snake_case)]
#[derive(Clone, Copy, Debug, PartialEq, Eq)]
pub struct ManagedCallbacks {
    pub SetPaths: usize,
    pub LoadModDB: usize,
    pub GetModCount: usize,
    pub GetModData: usize,
    pub FillModData: usize,
    pub TakeSnapshot: usize,
    pub GetLoadingState: usize,
}

impl ManagedCallbacks {
    /// The entries in table order.
    pub open spec fn entries(self) -> Seq<usize> {
        seq![
            self.SetPaths,
            self.LoadModDB,
            self.GetModCount,
            self.GetModData,
            self.FillModData,
            self.TakeSnapshot,
            self.GetLoadingState,
        ]
    }

    /// No entry of the table is null.
    pub open spec fn spec_is_complete(self) -> bool {
        forall|i: int| 0 <= i < TABLE_ENTRIES ==> self.entries()[i] != 0
    }

    /// The entry point of an operation.
    pub fn entry(&self, op: Operation) -> (address: usize)
        ensures
            address == self.entries()[op.spec_slot()],
    {
        match op {
            Operation::SetPaths => self.SetPaths,
            Operation::LoadModDB => self.LoadModDB,
            Operation::GetModCount => self.GetModCount,
            Operation::GetModData => self.GetModData,
            Operation::FillModData => self.FillModData,
            Operation::TakeSnapshot => self.TakeSnapshot,
            Operation::GetLoadingState => self.GetLoadingState,
        }
    }

    /// Whether every entry is present.
    pub fn is_complete(&self) -> (complete: bool)
        ensures
            complete == self.spec_is_complete(),
    {
        let complete = self.SetPaths != 0 && self.LoadModDB != 0 && self.GetModCount != 0
            && self.GetModData != 0 && self.FillModData != 0 && self.TakeSnapshot != 0
            && self.GetLoadingState != 0;
        proof {
            let e = self.entries();
            if complete {
                assert(self.spec_is_complete());
            } else {
                assert(e[0] == 0 || e[1] == 0 || e[2] == 0 || e[3] == 0 || e[4] == 0 || e[5] == 0
                    || e[6] == 0);
            }
        }
        complete
    }

    /// Reads a table out of its entries in table order.
    ///
    /// Returns `None` exactly when `entries` does not hold seven addresses.
    pub fn from_entries(entries: &[usize]) -> (table: Option<ManagedCallbacks>)
        ensures
            table is Some <==> entries@.len() == TABLE_ENTRIES,
            table matches Some(t) ==> t.entries() == entries@,
    {
        if entries.len() != TABLE_ENTRIES {
            return None;
        }
        let t = ManagedCallbacks {
            SetPaths: entries[0],
            LoadModDB: entries[1],
            GetModCount: entries[2],
            GetModData: entries[3],
            FillModData: entries[4],
            TakeSnapshot: entries[5],
            GetLoadingState: entries[6],
        };
        assert(t.entries() =~= entries@);
        Some(t)
    }
}

/// Two operations share a slot only if they are the same operation.
pub proof fn lemma_slots_distinct(a: Operation, b: Operation)
    ensures
        a.spec_slot() == b.spec_slot() <==> a == b,
        0 <= a.spec_slot() < TABLE_ENTRIES,
{
}

/// A table is determined by its entries: two tables with the same entries in the
/// same order are the same table.
pub proof fn lemma_entries_injective(a: ManagedCallbacks, b: ManagedCallbacks)
    requires
        a.entries() == b.entries(),
    ensures
        a == b,
{
    let ea = a.entries();
    let eb = b.entries();
    assert(ea[0] == eb[0] && ea[1] == eb[1] && ea[2] == eb[2] && ea[3] == eb[3]);
    assert(ea[4] == eb[4] && ea[5] == eb[5] && ea[6] == eb[6]);
}

} // verus!
