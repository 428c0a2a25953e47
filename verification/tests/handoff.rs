use interop::callbacks::ManagedCallbacks;
use interop::config::ConfData;
use interop::handoff::{
    address_mismatch, begin_handoff, conclude_handoff, status_code, HandoffError, HandoffReport,
    OnInitialized, PendingHandoff, HOST_EXECUTABLE_PATH, NATIVE_MODULE_PATH,
    STATUS_HOST_REJECTED_INIT, STATUS_MISSING_CAPABILITY, STATUS_OK,
};
use interop::state::{HookState, InteropState};
use interop::wide::to_wide_str;
use std::cell::RefCell;

fn table() -> ManagedCallbacks {
    ManagedCallbacks {
        SetPaths: 0x1000,
        LoadModDB: 0x1100,
        GetModCount: 0x1200,
        GetModData: 0x1300,
        FillModData: 0x1400,
        TakeSnapshot: 0x1500,
        GetLoadingState: 0x1600,
    }
}

fn record() -> ConfData {
    ConfData::new(true, false, b"default").unwrap()
}

fn wide(s: &str) -> Vec<u16> {
    let mut units: Vec<u16> = s.encode_utf16().collect();
    units.push(0);
    units
}

#[test]
fn handoff_with_record_succeeds() {
    let mut hook = HookState::new();
    let report = OnInitialized(&mut hook, Some(table()), 0x7000, 0x7000, |_, _, _| Some(record()));
    assert_eq!(report.status, 0);
    assert!(!report.address_mismatch);
    let state = hook.interop_state.expect("interop state present");
    assert_eq!(state.callbacks, table());
    assert_eq!(state.conf_data, record());
    assert!(!state.loading_mods);
    assert!(!state.done_loading_mods);
}

#[test]
fn handoff_without_table_fails() {
    let mut hook = HookState::new();
    let called = RefCell::new(false);
    let report = OnInitialized(&mut hook, None, 0x7000, 0x7000, |_, _, _| {
        *called.borrow_mut() = true;
        Some(record())
    });
    assert_ne!(report.status, 0);
    assert_eq!(report.status, 666);
    assert_eq!(report.status, STATUS_MISSING_CAPABILITY);
    assert!(hook.interop_state.is_none());
    assert!(!*called.borrow());
}

#[test]
fn handoff_without_record_fails() {
    let mut hook = HookState::new();
    let report = OnInitialized(&mut hook, Some(table()), 0x7000, 0x7000, |_, _, _| None);
    assert_ne!(report.status, 0);
    assert_eq!(report.status, 667);
    assert_eq!(report.status, STATUS_HOST_REJECTED_INIT);
    assert!(hook.interop_state.is_none());
}

#[test]
fn handoff_failures_have_distinct_codes() {
    let mut hook = HookState::new();
    let missing = OnInitialized(&mut hook, None, 1, 1, |_, _, _| None).status;
    let rejected = OnInitialized(&mut hook, Some(table()), 1, 1, |_, _, _| None).status;
    assert_ne!(missing, rejected);
    assert_ne!(missing, STATUS_OK);
    assert_ne!(rejected, STATUS_OK);
}

#[test]
fn address_mismatch_is_not_fatal() {
    let mut hook = HookState::new();
    let report =
        OnInitialized(&mut hook, Some(table()), 0xDEAD, 0xBEEF, |_, _, _| Some(record()));
    assert_eq!(report, HandoffReport { status: 0, address_mismatch: true });
    assert_eq!(hook.interop_state, Some(InteropState::new(table(), record())));
}

#[test]
fn address_mismatch_changes_no_outcome() {
    for (cookie, local) in [(0xDEAD_u64, 0xBEEF_u64), (0xBEEF, 0xBEEF), (0, u64::MAX)] {
        let mut hook = HookState::new();
        let ok = OnInitialized(&mut hook, Some(table()), cookie, local, |_, _, _| Some(record()));
        assert_eq!(ok.status, 0);
        assert_eq!(ok.address_mismatch, cookie != local);
        assert_eq!(hook.interop_state, Some(InteropState::new(table(), record())));

        let mut hook = HookState::new();
        let rejected = OnInitialized(&mut hook, Some(table()), cookie, local, |_, _, _| None);
        assert_eq!(rejected.status, 667);
        assert_eq!(rejected.address_mismatch, cookie != local);
        assert!(hook.interop_state.is_none());

        let missing = OnInitialized(&mut hook, None, cookie, local, |_, _, _| Some(record()));
        assert_eq!(missing.status, 666);
        assert_eq!(missing.address_mismatch, cookie != local);
        assert!(hook.interop_state.is_none());
    }
}

#[test]
fn address_mismatch_compares_the_two_addresses() {
    assert!(address_mismatch(0xDEAD, 0xBEEF));
    assert!(!address_mismatch(0xBEEF, 0xBEEF));
    assert!(address_mismatch(0xBEEF, 0xBEF0));
    assert!(!address_mismatch(0, 0));
    assert!(address_mismatch(u64::MAX, 0));
}

#[test]
fn set_paths_gets_entry_and_both_paths_in_order() {
    let mut hook = HookState::new();
    let seen: RefCell<Vec<(usize, Vec<u16>, Vec<u16>)>> = RefCell::new(Vec::new());
    let report = OnInitialized(&mut hook, Some(table()), 5, 5, |entry, dll, exe| {
        seen.borrow_mut().push((entry, dll, exe));
        Some(record())
    });
    assert_eq!(report.status, 0);
    let seen = seen.into_inner();
    assert_eq!(seen.len(), 1);
    let (entry, dll, exe) = &seen[0];
    assert_eq!(*entry, 0x1000);
    assert_eq!(*dll, wide("D:\\Dev\\ModelMod\\xx.dll"));
    assert_eq!(*exe, wide("D:\\Guild Wars 2\\gw2.exe"));
    assert_eq!(*dll, to_wide_str(NATIVE_MODULE_PATH));
    assert_eq!(*exe, to_wide_str(HOST_EXECUTABLE_PATH));
}

#[test]
fn begin_handoff_without_table() {
    assert_eq!(begin_handoff(None), Err(HandoffError::MissingCapability));
}

#[test]
fn begin_handoff_prepares_the_call() {
    assert_eq!(
        begin_handoff(Some(table())),
        Ok(PendingHandoff {
            callbacks: table(),
            dll_path: wide("D:\\Dev\\ModelMod\\xx.dll"),
            exe_path: wide("D:\\Guild Wars 2\\gw2.exe"),
        })
    );
}

#[test]
fn record_survives_the_copy_into_interop_state() {
    let mut hook = HookState::new();
    let sent = ConfData::new(true, false, b"default").unwrap();
    let report = OnInitialized(&mut hook, Some(table()), 9, 9, |_, _, _| Some(sent));
    assert_eq!(report.status, 0);
    let kept = hook.interop_state.unwrap().conf_data;
    assert!(kept.RunModeFull);
    assert!(!kept.LoadModsOnStart);
    assert_eq!(kept.profile_name(), b"default".to_vec());
}

#[test]
fn record_survives_marshalling_and_the_copy() {
    let mut bytes = vec![0u8; 514];
    bytes[0] = 1;
    bytes[1] = 0;
    bytes[2..9].copy_from_slice(b"default");
    let mut hook = HookState::new();
    let report =
        OnInitialized(&mut hook, Some(table()), 9, 9, |_, _, _| ConfData::from_bytes(&bytes));
    assert_eq!(report.status, 0);
    let kept = hook.interop_state.unwrap().conf_data;
    assert!(kept.RunModeFull);
    assert!(!kept.LoadModsOnStart);
    assert_eq!(kept.profile_name(), b"default".to_vec());
    assert_eq!(kept.to_bytes(), bytes);
}

#[test]
fn handoff_replaces_an_earlier_state() {
    let mut hook = HookState::new();
    let first = ConfData::new(false, true, b"first").unwrap();
    assert_eq!(OnInitialized(&mut hook, Some(table()), 1, 1, |_, _, _| Some(first)).status, 0);
    assert!(hook.set_loading_flags(true, true));
    let mut other = table();
    other.SetPaths = 0x2000;
    let second = ConfData::new(true, true, b"second").unwrap();
    assert_eq!(OnInitialized(&mut hook, Some(other), 1, 1, |_, _, _| Some(second)).status, 0);
    assert_eq!(
        hook.interop_state,
        Some(InteropState {
            callbacks: other,
            conf_data: second,
            loading_mods: false,
            done_loading_mods: false,
        })
    );
}

#[test]
fn failed_handoff_keeps_an_earlier_state() {
    let mut hook = HookState::new();
    assert_eq!(OnInitialized(&mut hook, Some(table()), 1, 1, |_, _, _| Some(record())).status, 0);
    let before = hook;
    assert_eq!(OnInitialized(&mut hook, Some(table()), 1, 1, |_, _, _| None).status, 667);
    assert_eq!(hook, before);
    assert_eq!(OnInitialized(&mut hook, None, 1, 1, |_, _, _| None).status, 666);
    assert_eq!(hook, before);
}

#[test]
fn conclude_handoff_with_record() {
    let mut hook = HookState::new();
    let outcome = conclude_handoff(&mut hook, table(), Some(record()));
    assert_eq!(outcome, Ok(()));
    assert_eq!(hook.interop_state, Some(InteropState::new(table(), record())));
}

#[test]
fn conclude_handoff_without_record() {
    let mut hook = HookState::new();
    let outcome = conclude_handoff(&mut hook, table(), None);
    assert_eq!(outcome, Err(HandoffError::HostRejectedInit));
    assert_eq!(hook, HookState::new());
}

#[test]
fn status_codes_of_outcomes() {
    assert_eq!(status_code(Ok(())), 0);
    assert_eq!(status_code(Err(HandoffError::MissingCapability)), 666);
    assert_eq!(status_code(Err(HandoffError::HostRejectedInit)), 667);
    assert_eq!(HandoffError::MissingCapability.code(), 666);
    assert_eq!(HandoffError::HostRejectedInit.code(), 667);
}

#[test]
fn errors_are_found_by_their_codes() {
    assert_eq!(HandoffError::from_code(666), Some(HandoffError::MissingCapability));
    assert_eq!(HandoffError::from_code(667), Some(HandoffError::HostRejectedInit));
    assert_eq!(HandoffError::from_code(0), None);
    assert_eq!(HandoffError::from_code(-1), None);
    assert_eq!(HandoffError::from_code(668), None);
}

#[test]
fn errors_have_their_log_lines() {
    assert_eq!(HandoffError::MissingCapability.message(), "error: no callbacks specified");
    assert_eq!(
        HandoffError::HostRejectedInit.message(),
        "error calling setpaths, returned conf data is null"
    );
}
