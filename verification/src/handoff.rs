//! The handoff: the one exchange in which the managed side introduces itself and
//! the native side takes down what it was given.
//!
//! The entry call arrives on a thread of the managed side. That thread cannot reach
//! the hook state through the native side's usual accessor, so the caller passes the
//! state's address back as a cookie and the state reached through the cookie is the
//! one that is written. The cookie is compared with the address the native side
//! computes for itself; a difference is worth a warning and nothing more.
use vstd::prelude::*;
use crate::callbacks::ManagedCallbacks;
use crate::config::{
    fits_profile, lemma_parse_record_bytes, lemma_profile_reads_back, padded_profile,
    parse_record, record_bytes, ConfData, ConfView,
};
use crate::state::{fresh_interop_state, HookState, InteropState};
use crate::wide::{lemma_wide_str_terminated, to_wide_str, utf16, wide_str};

verus! {

/// Status of a handoff that succeeded.
pub const STATUS_OK: i32 = 0;

/// Status of a handoff that was given no function table.
pub const STATUS_MISSING_CAPABILITY: i32 = 666;

/// Status of a handoff in which the managed side returned no configuration record.
pub const STATUS_HOST_REJECTED_INIT: i32 = 667;

/// Path of the native module, the first path handed to `SetPaths`.
pub const NATIVE_MODULE_PATH: &'static str = "D:\\Dev\\ModelMod\\xx.dll";

/// Path of the host executable, the second path handed to `SetPaths`.
pub const HOST_EXECUTABLE_PATH: &'static str = "D:\\Guild Wars 2\\gw2.exe";

/// Why a handoff failed. Either way the interop state stays as it was and the
/// process goes on without the features that need the managed side.
#[derive(Clone, Copy, Debug, PartialEq, Eq)]
pub enum HandoffError {
    /// No function table was supplied.
    MissingCapability,
    /// `SetPaths` returned no configuration record.
    HostRejectedInit,
}

impl HandoffError {
    /// The status code that stands for the error.
    pub open spec fn spec_code(self) -> i32 {
        match self {
            HandoffError::MissingCapability => STATUS_MISSING_CAPABILITY,
            HandoffError::HostRejectedInit => STATUS_HOST_REJECTED_INIT,
        }
    }

    /// The status code that stands for the error.
    pub fn code(&self) -> (status: i32)
        ensures
            status == self.spec_code(),
    {
        match self {
            HandoffError::MissingCapability => STATUS_MISSING_CAPABILITY,
            HandoffError::HostRejectedInit => STATUS_HOST_REJECTED_INIT,
        }
    }

    /// The error that a status code stands for; `None` for success and for codes
    /// that no handoff returns.
    pub open spec fn spec_from_code(status: i32) -> Option<HandoffError> {
        if status == STATUS_MISSING_CAPABILITY {
            Some(HandoffError::MissingCapability)
        } else if status == STATUS_HOST_REJECTED_INIT {
            Some(HandoffError::HostRejectedInit)
        } else {
            None
        }
    }

    /// The error that a status code stands for; `None` for success and for codes
    /// that no handoff returns.
    pub fn from_code(status: i32) -> (error: Option<HandoffError>)
        ensures
            error == Self::spec_from_code(status),
    {
        if status == STATUS_MISSING_CAPABILITY {
            Some(HandoffError::MissingCapability)
        } else if status == STATUS_HOST_REJECTED_INIT {
            Some(HandoffError::HostRejectedInit)
        } else {
            None
        }
    }

    /// The line that reports the error in the log.
    pub fn message(&self) -> (line: String)
        ensures
            *self == HandoffError::MissingCapability ==> line@
                == "error: no callbacks specified"@,
            *self == HandoffError::HostRejectedInit ==> line@
                == "error calling setpaths, returned conf data is null"@,
    {
        match self {
            HandoffError::MissingCapability => "error: no callbacks specified".to_owned(),
            HandoffError::HostRejectedInit => {
                "error calling setpaths, returned conf data is null".to_owned()
            },
        }
    }
}

/// A handoff that has a function table and waits for the answer of `SetPaths`.
#[derive(Debug, PartialEq, Eq)]
pub struct PendingHandoff {
    /// The table that was supplied. `SetPaths` is called through its entry of that
    /// name, and a successful handoff stores the table.
    pub callbacks: ManagedCallbacks,
    /// Path of the native module, NUL-terminated: the first argument of the call.
    pub dll_path: Vec<u16>,
    /// Path of the host executable, NUL-terminated: the second argument of the call.
    pub exe_path: Vec<u16>,
}

/// What the entry operation hands back: the status for the managed side, and what
/// is worth a line in the log besides.
#[derive(Clone, Copy, Debug, PartialEq, Eq)]
pub struct HandoffReport {
    /// Zero for success, the code of the error otherwise.
    pub status: i32,
    /// The cookie named another address than the native side computed for its hook
    /// state. The handoff went ahead all the same, on the state behind the cookie.
    pub address_mismatch: bool,
}

/// The status code of an outcome: zero for success, the error's code otherwise.
pub open spec fn spec_status_code(outcome: Result<(), HandoffError>) -> i32 {
    match outcome {
        Ok(_) => STATUS_OK,
        Err(e) => e.spec_code(),
    }
}

/// What becomes of a handoff once `SetPaths` has answered: it succeeds if a record
/// came back and is rejected if none did.
pub open spec fn record_outcome(reply: Option<ConfData>) -> Result<(), HandoffError> {
    match reply {
        Some(_) => Ok(()),
        None => Err(HandoffError::HostRejectedInit),
    }
}

/// The hook state after `SetPaths` has answered: a fresh interop state made of the
/// table and the record if a record came back, the state as it was if none did.
pub open spec fn state_after(before: HookState, callbacks: ManagedCallbacks, reply: Option<
    ConfData,
>) -> HookState {
    match reply {
        Some(record) => HookState {
            interop_state: Some(fresh_interop_state(callbacks, record)),
        },
        None => before,
    }
}

/// The arguments of the one call that a handoff makes: the `SetPaths` entry of the
/// table, then the native module's path and the host executable's path, in that
/// order, each as a NUL-terminated wide string.
pub open spec fn is_set_paths_call(
    callbacks: ManagedCallbacks,
    entry: usize,
    dll_path: Seq<u16>,
    exe_path: Seq<u16>,
) -> bool {
    &&& entry == callbacks.SetPaths
    &&& dll_path == wide_str(NATIVE_MODULE_PATH@)
    &&& exe_path == wide_str(HOST_EXECUTABLE_PATH@)
}

/// The outcome of a whole handoff, given the table that was supplied and what
/// `SetPaths` answered. Without a table nothing is called and `reply` plays no part.
pub open spec fn handoff_outcome(callbacks: Option<ManagedCallbacks>, reply: Option<ConfData>)
    -> Result<(), HandoffError> {
    match callbacks {
        Some(_) => record_outcome(reply),
        None => Err(HandoffError::MissingCapability),
    }
}

/// The hook state after a whole handoff: as it was unless a table was supplied and a
/// record came back.
pub open spec fn handoff_state(
    before: HookState,
    callbacks: Option<ManagedCallbacks>,
    reply: Option<ConfData>,
) -> HookState {
    match callbacks {
        Some(table) => state_after(before, table, reply),
        None => before,
    }
}

/// The report of a whole handoff: the status of its outcome, and whether the two
/// addresses differ.
pub open spec fn handoff_report(
    callbacks: Option<ManagedCallbacks>,
    cookie: u64,
    local_address: u64,
    reply: Option<ConfData>,
) -> HandoffReport {
    HandoffReport {
        status: spec_status_code(handoff_outcome(callbacks, reply)),
        address_mismatch: cookie != local_address,
    }
}

/// The status code of an outcome.
pub fn status_code(outcome: Result<(), HandoffError>) -> (status: i32)
    ensures
        status == spec_status_code(outcome),
        status == STATUS_OK <==> outcome is Ok,
{
    match outcome {
        Ok(_) => STATUS_OK,
        Err(e) => e.code(),
    }
}

/// Whether the cookie names another address than the one the native side computed
/// for its hook state. A mismatch is an anomaly to report, not a failure.
pub fn address_mismatch(cookie: u64, local_address: u64) -> (mismatch: bool)
    ensures
        mismatch == (cookie != local_address),
{
    cookie != local_address
}

/// Opens a handoff: checks that a function table was supplied and prepares the call
/// of `SetPaths` through it.
///
/// Without a table the handoff fails with `MissingCapability` and there is nothing
/// to call. With one, the handoff is pending: it holds the table and the two fixed
/// paths that the call carries.
pub fn begin_handoff(callbacks: Option<ManagedCallbacks>) -> (step: Result<
    PendingHandoff,
    HandoffError,
>)
    ensures
        callbacks is None ==> step == Err::<PendingHandoff, HandoffError>(
            HandoffError::MissingCapability,
        ),
        callbacks matches Some(table) ==> step is Ok && step->Ok_0.callbacks == table
            && is_set_paths_call(
            table,
            table.SetPaths,
            step->Ok_0.dll_path@,
            step->Ok_0.exe_path@,
        ),
{
    match callbacks {
        Some(table) => Ok(
            PendingHandoff {
                callbacks: table,
                dll_path: to_wide_str(NATIVE_MODULE_PATH),
                exe_path: to_wide_str(HOST_EXECUTABLE_PATH),
            },
        ),
        None => Err(HandoffError::MissingCapability),
    }
}

/// Finishes a handoff with the answer of `SetPaths`.
///
/// With a record, the hook state receives a fresh interop state made of `callbacks`
/// and the record, whatever it held before. Without one, the hook state is left as
/// it was and the handoff is rejected.
pub fn conclude_handoff(
    hook: &mut HookState,
    callbacks: ManagedCallbacks,
    reply: Option<ConfData>,
) -> (outcome: Result<(), HandoffError>)
    ensures
        outcome == record_outcome(reply),
        *final(hook) == state_after(*old(hook), callbacks, reply),
{
    match reply {
        Some(record) => {
            hook.interop_state = Some(InteropState::new(callbacks, record));
            Ok(())
        },
        None => Err(HandoffError::HostRejectedInit),
    }
}

/// The entry operation of the handoff.
///
/// `hook` is the hook state that the cookie refers to, `callbacks` the function
/// table (`None` for a null table), `local_address` the address that the native
/// side computes for its own hook state. `set_paths` performs a call through a
/// `SetPaths` entry: it takes the entry and the two paths and returns the record
/// that came back, `None` for a null record.
///
/// Without a table nothing is called, the hook state is left as it was and the
/// status is `STATUS_MISSING_CAPABILITY`. With a table `set_paths` is called once,
/// on the table's `SetPaths` entry and the two fixed paths, and its answer decides:
/// a record makes the status `STATUS_OK` and the interop state present with both
/// loading flags down; no record makes the status `STATUS_HOST_REJECTED_INIT` and
/// leaves the hook state as it was.
///
/// The report says whether `cookie` and `local_address` differ. Neither the status
/// nor the state depends on that: a mismatch does not stand in the way.
#[allow(non_snake_case)]
pub fn OnInitialized<F: FnOnce(usize, Vec<u16>, Vec<u16>) -> Option<ConfData>>(
    hook: &mut HookState,
    callbacks: Option<ManagedCallbacks>,
    cookie: u64,
    local_address: u64,
    set_paths: F,
) -> (report: HandoffReport)
    requires
        callbacks matches Some(table) ==> forall|dll_path: Vec<u16>, exe_path: Vec<u16>|
            is_set_paths_call(table, table.SetPaths, dll_path@, exe_path@)
                ==> #[trigger] call_requires(set_paths, (table.SetPaths, dll_path, exe_path)),
    ensures
        callbacks is None ==> report == handoff_report(None, cookie, local_address, None)
            && *final(hook) == *old(hook),
        callbacks is Some ==> exists|dll_path: Vec<u16>, exe_path: Vec<u16>, reply: Option<ConfData>|
            is_set_paths_call(callbacks->0, callbacks->0.SetPaths, dll_path@, exe_path@)
                && #[trigger] call_ensures(
                    set_paths,
                    (callbacks->0.SetPaths, dll_path, exe_path),
                    reply,
                )
                && report == handoff_report(callbacks, cookie, local_address, reply)
                && *final(hook) == handoff_state(*old(hook), callbacks, reply),
{
    let address_mismatch = address_mismatch(cookie, local_address);
    let outcome = match begin_handoff(callbacks) {
        Ok(pending) => {
            let table = pending.callbacks;
            let reply = set_paths(table.SetPaths, pending.dll_path, pending.exe_path);
            conclude_handoff(hook, table, reply)
        },
        Err(error) => Err(error),
    };
    HandoffReport { status: status_code(outcome), address_mismatch }
}

/// A handoff that is given a table and a record succeeds: the status is zero and
/// the interop state is present, made of that table and that record, with both
/// loading flags down. What the hook state held before does not matter.
pub proof fn lemma_handoff_establishes_state(
    before: HookState,
    callbacks: ManagedCallbacks,
    cookie: u64,
    local_address: u64,
    record: ConfData,
)
    ensures
        handoff_report(Some(callbacks), cookie, local_address, Some(record)).status == 0,
        handoff_state(before, Some(callbacks), Some(record)).interop_state == Some(
            fresh_interop_state(callbacks, record),
        ),
        !fresh_interop_state(callbacks, record).loading_mods,
        !fresh_interop_state(callbacks, record).done_loading_mods,
{
}

/// A handoff that is given no table fails with a nonzero status, whatever `SetPaths`
/// would have answered, and leaves the hook state as it was: an interop state that
/// was absent stays absent.
pub proof fn lemma_missing_table_fails(
    before: HookState,
    cookie: u64,
    local_address: u64,
    reply: Option<ConfData>,
)
    ensures
        handoff_report(None, cookie, local_address, reply).status != 0,
        handoff_report(None, cookie, local_address, reply).status == STATUS_MISSING_CAPABILITY,
        handoff_state(before, None, reply) == before,
{
}

/// A handoff whose `SetPaths` returns no record fails with a nonzero status and
/// leaves the hook state as it was: an interop state that was absent stays absent.
pub proof fn lemma_rejected_handoff_fails(
    before: HookState,
    callbacks: ManagedCallbacks,
    cookie: u64,
    local_address: u64,
)
    ensures
        handoff_report(Some(callbacks), cookie, local_address, None).status != 0,
        handoff_report(Some(callbacks), cookie, local_address, None).status
            == STATUS_HOST_REJECTED_INIT,
        handoff_state(before, Some(callbacks), None) == before,
{
}

/// A mismatch between the cookie and the local address is reported and changes
/// nothing else: status and hook state are what they are when the two agree. With
/// a table and a record the handoff succeeds all the same.
pub proof fn lemma_address_mismatch_not_fatal(
    before: HookState,
    callbacks: Option<ManagedCallbacks>,
    cookie: u64,
    local_address: u64,
    reply: Option<ConfData>,
)
    requires
        cookie != local_address,
    ensures
        handoff_report(callbacks, cookie, local_address, reply).address_mismatch,
        handoff_report(callbacks, cookie, local_address, reply).status == handoff_report(
            callbacks,
            local_address,
            local_address,
            reply,
        ).status,
        callbacks is Some && reply is Some ==> handoff_report(
            callbacks,
            cookie,
            local_address,
            reply,
        ).status == 0 && handoff_state(before, callbacks, reply).interop_state is Some,
{
}

/// A record comes through the handoff unharmed. Let the managed side marshal two
/// flags and a profile name that fits, let `record` be what the native side parses
/// out of those bytes, and let the handoff copy it into the interop state: then both
/// flags and the name are read back from there as they were sent.
pub proof fn lemma_record_survives_handoff(
    before: HookState,
    callbacks: ManagedCallbacks,
    run_mode_full: bool,
    load_mods_on_start: bool,
    name: Seq<u8>,
    record: ConfData,
)
    requires
        fits_profile(name),
        parse_record(
            record_bytes(
                (ConfView {
                    run_mode_full,
                    load_mods_on_start,
                    input_profile: padded_profile(name),
                }),
            ),
        ) == Some(record@),
    ensures
        handoff_state(before, Some(callbacks), Some(record)).interop_state is Some,
        handoff_state(before, Some(callbacks), Some(record)).interop_state->0.conf_data.RunModeFull
            == run_mode_full,
        handoff_state(
            before,
            Some(callbacks),
            Some(record),
        ).interop_state->0.conf_data.LoadModsOnStart == load_mods_on_start,
        handoff_state(
            before,
            Some(callbacks),
            Some(record),
        ).interop_state->0.conf_data.spec_profile_name() == name,
{
    let sent = ConfView { run_mode_full, load_mods_on_start, input_profile: padded_profile(name) };
    lemma_parse_record_bytes(sent);
    lemma_profile_reads_back(name);
}

/// Both fixed paths reach the managed side as proper wide strings: no code unit in
/// front of the terminator is NUL, so a reader that stops at the first NUL reads
/// the whole path.
pub proof fn lemma_fixed_paths_terminated()
    ensures
        forall|i: int|
            0 <= i < utf16(NATIVE_MODULE_PATH@).len() ==> utf16(NATIVE_MODULE_PATH@)[i] != 0,
        forall|i: int|
            0 <= i < utf16(HOST_EXECUTABLE_PATH@).len() ==> utf16(HOST_EXECUTABLE_PATH@)[i] != 0,
        wide_str(NATIVE_MODULE_PATH@).last() == 0,
        wide_str(HOST_EXECUTABLE_PATH@).last() == 0,
{
    reveal_strlit("D:\\Dev\\ModelMod\\xx.dll");
    reveal_strlit("D:\\Guild Wars 2\\gw2.exe");
    lemma_wide_str_terminated(NATIVE_MODULE_PATH@);
    lemma_wide_str_terminated(HOST_EXECUTABLE_PATH@);
}

/// The three outcomes of a handoff have three different status codes, and a status
/// tells which outcome it stands for.
pub proof fn lemma_status_codes_distinct(outcome: Result<(), HandoffError>)
    ensures
        STATUS_OK != STATUS_MISSING_CAPABILITY,
        STATUS_OK != STATUS_HOST_REJECTED_INIT,
        STATUS_MISSING_CAPABILITY != STATUS_HOST_REJECTED_INIT,
        spec_status_code(outcome) == STATUS_OK <==> outcome is Ok,
        outcome matches Err(e) ==> HandoffError::spec_from_code(spec_status_code(outcome))
            == Some(e),
        outcome is Ok ==> HandoffError::spec_from_code(spec_status_code(outcome)) is None,
{
}

} // verus!
