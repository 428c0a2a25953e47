//! The delegated operations: what the native side asks of the managed side once the
//! handoff is done.
//!
//! Each operation is one synchronous call through the stored table, made by the
//! caller on whatever thread the hook is running. This module decides what stands
//! around the call: which entry to call through, whether there is one at all, and
//! what the answer means. Nothing is retried.
use vstd::prelude::*;
use crate::callbacks::{ManagedCallbacks, Operation};
use crate::config::ConfData;
use crate::handoff::handoff_state;
use crate::state::{HookState, ModData};

verus! {

/// Why a delegated operation yielded nothing. None of these is fatal: the caller
/// skips the mod or the snapshot and the hook goes on.
#[derive(Clone, Copy, Debug, PartialEq, Eq)]
pub enum CallError {
    /// No handoff has succeeded, so there is no table to call through.
    FeatureUnavailable,
    /// The managed side answered with this nonzero status.
    PerCallFailure(i32),
    /// The managed side answered with no descriptor.
    NoDescriptor,
}

/// The entry to call through for `op`: the table's entry if the interop state is
/// present, `FeatureUnavailable` if it is absent.
pub open spec fn spec_entry_point(hook: HookState, op: Operation) -> Result<usize, CallError> {
    match hook.interop_state {
        Some(state) => Ok(state.callbacks.entries()[op.spec_slot()]),
        None => Err(CallError::FeatureUnavailable),
    }
}

/// The capacity to declare for a buffer of `len` bytes: its length, or the largest
/// size the callee can be told when the buffer is longer than that.
pub open spec fn spec_declared_capacity(len: usize) -> i32 {
    if len <= i32::MAX {
        len as i32
    } else {
        i32::MAX
    }
}

/// What a status means: zero is success, anything else a failure that carries the
/// status.
pub open spec fn spec_check_status(status: i32) -> Result<(), CallError> {
    if status == 0 {
        Ok(())
    } else {
        Err(CallError::PerCallFailure(status))
    }
}

impl HookState {
    /// Looks up the entry point to call through for `op`.
    pub fn entry_point(&self, op: Operation) -> (entry: Result<usize, CallError>)
        ensures
            entry == spec_entry_point(*self, op),
    {
        match &self.interop_state {
            Some(state) => Ok(state.callbacks.entry(op)),
            None => Err(CallError::FeatureUnavailable),
        }
    }
}

/// Reads the status that `LoadModDatabase` or `FillModData` returned. After a
/// failure of `FillModData` the buffers may be partly written and must not be used:
/// the mod is skipped.
pub fn check_status(status: i32) -> (outcome: Result<(), CallError>)
    ensures
        outcome == spec_check_status(status),
{
    if status == 0 {
        Ok(())
    } else {
        Err(CallError::PerCallFailure(status))
    }
}

/// Works out the capacity to declare to `FillModData` for a caller-owned buffer of
/// `len` bytes. The callee writes up to the declared size, so the size declared is
/// never more than the buffer holds.
pub fn declared_capacity(len: usize) -> (size: i32)
    ensures
        size == spec_declared_capacity(len),
        0 <= size <= len,
{
    if len <= i32::MAX as usize {
        len as i32
    } else {
        i32::MAX
    }
}

/// Reads the answer of `GetModData`: the descriptor, or `NoDescriptor` when the
/// managed side returned none, as it does for an index that is out of range.
pub fn check_mod_data(descriptor: Option<ModData>) -> (outcome: Result<ModData, CallError>)
    ensures
        descriptor matches Some(d) ==> outcome == Ok::<ModData, CallError>(d),
        descriptor is None ==> outcome == Err::<ModData, CallError>(CallError::NoDescriptor),
{
    match descriptor {
        Some(d) => Ok(d),
        None => Err(CallError::NoDescriptor),
    }
}

/// Only a zero status is a success; every other status is reported with its value.
pub proof fn lemma_nonzero_status_fails(status: i32)
    ensures
        spec_check_status(status) is Ok <==> status == 0,
        status != 0 ==> spec_check_status(status) == Err::<(), CallError>(
            CallError::PerCallFailure(status),
        ),
{
}

/// Without an interop state every operation is unavailable.
pub proof fn lemma_absent_state_unavailable(hook: HookState, op: Operation)
    requires
        hook.interop_state is None,
    ensures
        spec_entry_point(hook, op) == Err::<usize, CallError>(CallError::FeatureUnavailable),
{
}

/// After a handoff that was given a table and a record, every operation is called
/// through the entry that the table holds for it.
pub proof fn lemma_handoff_enables_operations(
    before: HookState,
    callbacks: ManagedCallbacks,
    record: ConfData,
    op: Operation,
)
    ensures
        spec_entry_point(handoff_state(before, Some(callbacks), Some(record)), op) == Ok::<
            usize,
            CallError,
        >(callbacks.entries()[op.spec_slot()]),
{
}

/// A handoff that failed, for want of a table or of a record, leaves every operation
/// as available as it was: unavailable if the interop state was absent.
pub proof fn lemma_failed_handoff_enables_nothing(
    before: HookState,
    callbacks: Option<ManagedCallbacks>,
    reply: Option<ConfData>,
    op: Operation,
)
    requires
        callbacks is None || reply is None,
    ensures
        spec_entry_point(handoff_state(before, callbacks, reply), op) == spec_entry_point(
            before,
            op,
        ),
        before.interop_state is None ==> spec_entry_point(
            handoff_state(before, callbacks, reply),
            op,
        ) == Err::<usize, CallError>(CallError::FeatureUnavailable),
{
}

} // verus!
