//! The native side's share of the state: what the handoff establishes and where it
//! is kept.
use vstd::prelude::*;
use crate::callbacks::ManagedCallbacks;
use crate::config::ConfData;

verus! {

/// Descriptor of one mod, owned by the managed side. The native side sees it only
/// as the thing that a successful `GetModData` yields.
#[derive(Clone, Copy, Debug, PartialEq, Eq)]
pub struct ModData {}

/// What the native side knows of the managed side once the handoff has succeeded.
///
/// The table and the record are written once. The two flags are the native side's
/// own bookkeeping of the mod-loading sequence ("a load was requested", "a load
/// finished"); they say nothing of what the managed side reports through
/// `GetLoadingState`, and the two are not kept in step.
#[derive(Clone, Copy, Debug, PartialEq, Eq)]
pub struct InteropState {
    pub callbacks: ManagedCallbacks,
    pub conf_data: ConfData,
    pub loading_mods: bool,
    pub done_loading_mods: bool,
}

/// The part of the process-wide hook state that the interop boundary owns: the
/// interop state, absent until a handoff succeeds.
#[derive(Clone, Copy, Debug, PartialEq, Eq)]
pub struct HookState {
    pub interop_state: Option<InteropState>,
}

/// The interop state that a successful handoff leaves: table and record as they
/// were received, no load requested, none finished.
pub open spec fn fresh_interop_state(callbacks: ManagedCallbacks, conf_data: ConfData)
    -> InteropState {
    InteropState { callbacks, conf_data, loading_mods: false, done_loading_mods: false }
}

/// `state` with its two loading flags replaced, the table and the record kept.
pub open spec fn with_loading_flags(
    state: InteropState,
    loading_mods: bool,
    done_loading_mods: bool,
) -> InteropState {
    InteropState { loading_mods, done_loading_mods, ..state }
}

impl InteropState {
    /// Builds the interop state of a handoff that has just succeeded.
    pub fn new(callbacks: ManagedCallbacks, conf_data: ConfData) -> (state: InteropState)
        ensures
            state == fresh_interop_state(callbacks, conf_data),
    {
        InteropState { callbacks, conf_data, loading_mods: false, done_loading_mods: false }
    }
}

impl HookState {
    /// A hook state before any handoff.
    pub fn new() -> (hook: HookState)
        ensures
            hook.interop_state is None,
    {
        HookState { interop_state: None }
    }

    /// Whether a handoff has succeeded.
    pub fn is_available(&self) -> (available: bool)
        ensures
            available == self.interop_state is Some,
    {
        self.interop_state.is_some()
    }

    /// Records the progress of the mod-loading sequence.
    ///
    /// This is the one change that is meant to happen after the handoff: the two
    /// flags take the given values, the table and the record stay as received.
    /// Without an interop state nothing changes and the result is `false`.
    pub fn set_loading_flags(&mut self, loading_mods: bool, done_loading_mods: bool) -> (done:
        bool)
        ensures
            done == old(self).interop_state is Some,
            old(self).interop_state is None ==> *final(self) == *old(self),
            old(self).interop_state matches Some(before) ==> final(self).interop_state == Some(
                with_loading_flags(before, loading_mods, done_loading_mods),
            ),
    {
        match self.interop_state {
            Some(state) => {
                self.interop_state = Some(
                    InteropState { loading_mods, done_loading_mods, ..state },
                );
                true
            },
            None => false,
        }
    }
}

} // verus!
